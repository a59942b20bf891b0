//! SMIL manifests: the media location is the `src` attribute of the first
//! `<video>` element inside the `<seq>` container.

use vstd::prelude::*;
use crate::error::CbcError;
use crate::text::{chars_of, find, find_from, lemma_find_from, matches_at, occurs_at};

verus! {

pub const SEQ_OPEN: &'static str = "<seq";

pub const SEQ_CLOSE: &'static str = "</seq>";

pub const VIDEO_OPEN: &'static str = "<video";

pub const SRC_ATTR: &'static str = "src=";

pub const TAG_CLOSE: &'static str = ">";

pub open spec fn is_attr_space(c: char) -> bool {
    c == ' ' || c == '\t' || c == '\n' || c == '\r'
}

pub open spec fn is_quote(c: char) -> bool {
    c == '"' || c == '\''
}

/// A quoted `src` attribute starts at `i`: the name follows white space, so
/// it is not the tail of another attribute's name, and `=` is followed by a
/// double or single quote.
pub open spec fn src_attr_at(doc: Seq<char>, i: int) -> bool {
    occurs_at(doc, SRC_ATTR@, i) && i > 0 && is_attr_space(doc[i - 1]) && i + SRC_ATTR@.len()
        < doc.len() && is_quote(doc[i + SRC_ATTR@.len()])
}

/// A `<video` element starts at `i`: the tag name ends there.
pub open spec fn video_at(doc: Seq<char>, i: int) -> bool {
    occurs_at(doc, VIDEO_OPEN@, i) && i + VIDEO_OPEN@.len() < doc.len() && (is_attr_space(
        doc[i + VIDEO_OPEN@.len()],
    ) || doc[i + VIDEO_OPEN@.len()] == '>' || doc[i + VIDEO_OPEN@.len()] == '/')
}

/// The first `<video` element at or after `from`.
pub open spec fn find_video(doc: Seq<char>, from: int) -> Option<int>
    decreases doc.len() + 1 - from,
{
    if from < 0 || from + VIDEO_OPEN@.len() > doc.len() {
        None
    } else if video_at(doc, from) {
        Some(from)
    } else {
        find_video(doc, from + 1)
    }
}

/// The first `src="` attribute at or after `from`.
pub open spec fn find_src_attr(doc: Seq<char>, from: int) -> Option<int>
    decreases doc.len() + 1 - from,
{
    if from < 0 || from + SRC_ATTR@.len() > doc.len() {
        None
    } else if src_attr_at(doc, from) {
        Some(from)
    } else {
        find_src_attr(doc, from + 1)
    }
}

proof fn lemma_find_src_attr(doc: Seq<char>, from: int)
    ensures
        find_src_attr(doc, from) matches Some(i) ==> src_attr_at(doc, i) && from <= i,
    decreases doc.len() + 1 - from,
{
    if !(from < 0 || from + SRC_ATTR@.len() > doc.len()) && !src_attr_at(doc, from) {
        lemma_find_src_attr(doc, from + 1);
    }
}

/// The `src` value of the first `<video>` element after the first `<seq`,
/// when that element starts before the container's `</seq>` and the attribute
/// stands before the element's closing `>`.
pub open spec fn smil_video_src(doc: Seq<char>) -> Option<Seq<char>> {
    match find_from(doc, SEQ_OPEN@, 0) {
        None => None,
        Some(a) => match (find_from(doc, SEQ_CLOSE@, a), find_video(doc, a)) {
            (Some(z), Some(b)) => if b >= z {
                None
            } else {
                match find_src_attr(doc, b) {
                    None => None,
                    Some(c) => {
                        let closed_before = match find_from(doc, TAG_CLOSE@, b) {
                            Some(g) => g < c,
                            None => false,
                        };
                        if closed_before {
                            None
                        } else {
                            let start = c + SRC_ATTR@.len() + 1;
                            match find_from(doc, seq![doc[start - 1]], start) {
                                None => None,
                                Some(e) => Some(doc.subrange(start, e)),
                            }
                        }
                    },
                }
            },
            _ => None,
        },
    }
}

/// The first `src="` attribute of `cs` at or after `from`.
fn find_src(cs: &Vec<char>, attr: &Vec<char>, from: usize) -> (r: Option<usize>)
    requires
        attr@ == SRC_ATTR@,
    ensures
        match r {
            Some(i) => find_src_attr(cs@, from as int) == Some(i as int),
            None => find_src_attr(cs@, from as int) is None,
        },
{
    let mut i = from;
    while i <= cs.len() && attr.len() <= cs.len() - i
        invariant
            from <= i,
            attr@ == SRC_ATTR@,
            find_src_attr(cs@, from as int) == find_src_attr(cs@, i as int),
        decreases cs.len() + 1 - i,
    {
        if i > 0 && i + attr.len() < cs.len() && matches_at(cs, attr, i) {
            let p = cs[i - 1];
            let q = cs[i + attr.len()];
            if (p == ' ' || p == '\t' || p == '\n' || p == '\r') && (q == '"' || q == '\'') {
                return Some(i);
            }
        }
        if i == cs.len() {
            assert(find_src_attr(cs@, i as int + 1) is None);
            return None;
        }
        i = i + 1;
    }
    None
}

/// The first `<video>` element of `cs` at or after `from`.
fn find_video_exec(cs: &Vec<char>, tag: &Vec<char>, from: usize) -> (r: Option<usize>)
    requires
        tag@ == VIDEO_OPEN@,
    ensures
        match r {
            Some(i) => find_video(cs@, from as int) == Some(i as int),
            None => find_video(cs@, from as int) is None,
        },
{
    let mut i = from;
    while i <= cs.len() && tag.len() <= cs.len() - i
        invariant
            from <= i,
            tag@ == VIDEO_OPEN@,
            find_video(cs@, from as int) == find_video(cs@, i as int),
        decreases cs.len() + 1 - i,
    {
        if i + tag.len() < cs.len() && matches_at(cs, tag, i) {
            let q = cs[i + tag.len()];
            if q == ' ' || q == '\t' || q == '\n' || q == '\r' || q == '>' || q == '/' {
                return Some(i);
            }
        }
        if i == cs.len() {
            assert(find_video(cs@, i as int + 1) is None);
            return None;
        }
        i = i + 1;
    }
    None
}

/// The media URL that a SMIL manifest points to.
pub fn video_source(doc: &str) -> (r: Result<String, CbcError>)
    ensures
        match smil_video_src(doc@) {
            Some(s) => r matches Ok(t) && t@ == s,
            None => r matches Err(CbcError::MissingVideoSource),
        },
{
    let cs = chars_of(doc);
    let n = cs.len();
    let a = match find(&cs, &chars_of(SEQ_OPEN), 0) {
        Some(a) => a,
        None => return Err(CbcError::MissingVideoSource),
    };
    let z = match find(&cs, &chars_of(SEQ_CLOSE), a) {
        Some(z) => z,
        None => return Err(CbcError::MissingVideoSource),
    };
    let b = match find_video_exec(&cs, &chars_of(VIDEO_OPEN), a) {
        Some(b) => b,
        None => return Err(CbcError::MissingVideoSource),
    };
    if b >= z {
        return Err(CbcError::MissingVideoSource);
    }
    let attr = chars_of(SRC_ATTR);
    let c = match find_src(&cs, &attr, b) {
        Some(c) => c,
        None => return Err(CbcError::MissingVideoSource),
    };
    let closed_before = match find(&cs, &chars_of(TAG_CLOSE), b) {
        Some(g) => g < c,
        None => false,
    };
    if closed_before {
        return Err(CbcError::MissingVideoSource);
    }
    proof {
        lemma_find_src_attr(doc@, b as int);
    }
    let k = attr.len();
    assert(c + k < n);
    let start = c + k + 1;
    let quote = vec![cs[c + k]];
    assert(quote@ =~= seq![doc@[start - 1]]);
    proof {
        lemma_find_from(doc@, quote@, start as int);
    }
    let e = match find(&cs, &quote, start) {
        Some(e) => e,
        None => return Err(CbcError::MissingVideoSource),
    };
    Ok(doc.substring_char(start, e).to_owned())
}

} // verus!
