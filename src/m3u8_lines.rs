//! A line scan of playlist text that finds the tag lines on which the HLS
//! parser cannot be trusted to return: media-segment tags whose parsers panic
//! on some values, and tags whose last attribute value is a lone `"`.
//!
//! Lines are split at `\n`. Leading and trailing padding (ASCII white space
//! and every non-ASCII character) is skipped, which covers all that the
//! parser trims from a line.

use vstd::prelude::*;
use crate::text::{chars_of, matches_at, occurs_at};

verus! {

pub const EXTINF_TAG: &'static str = "#EXTINF:";

pub const DATE_RANGE_TAG: &'static str = "#EXT-X-DATERANGE:";

pub const BYTE_RANGE_TAG: &'static str = "#EXT-X-BYTERANGE:";

pub const MAP_TAG: &'static str = "#EXT-X-MAP:";

pub const TAG_START: &'static str = "#EXT";

pub open spec fn is_pad(c: char) -> bool {
    c == ' ' || c == '\t' || c == '\r' || c == '\x0B' || c == '\x0C' || (c as u32) > 0x7f
}

/// Index of the `\n` that ends the line running from `i`, or the text's length.
pub open spec fn line_end(t: Seq<char>, i: int) -> int
    decreases t.len() - i,
{
    if i < 0 || i >= t.len() {
        t.len() as int
    } else if t[i] == '\n' {
        i
    } else {
        line_end(t, i + 1)
    }
}

/// The first index in `i..e` that is not padding, or `e`.
pub open spec fn skip_pad(t: Seq<char>, i: int, e: int) -> int
    decreases e - i,
{
    if i < 0 || i >= e || !is_pad(t[i]) {
        i
    } else {
        skip_pad(t, i + 1, e)
    }
}

/// The last index in `s..e` that is not padding, or `s - 1`.
pub open spec fn last_solid(t: Seq<char>, s: int, e: int) -> int
    decreases e - s,
{
    if e <= s || e > t.len() {
        s - 1
    } else if !is_pad(t[e - 1]) {
        e - 1
    } else {
        last_solid(t, s, e - 1)
    }
}

/// The trimmed line `s..e` starts with one of the media-segment tags whose
/// parsers panic on some values.
pub open spec fn starts_panicking_tag(t: Seq<char>, s: int) -> bool {
    occurs_at(t, EXTINF_TAG@, s) || occurs_at(t, DATE_RANGE_TAG@, s) || occurs_at(
        t,
        BYTE_RANGE_TAG@,
        s,
    ) || occurs_at(t, MAP_TAG@, s)
}

/// The trimmed line `s..e` is a tag that ends in `="`: its last attribute
/// value is a lone quote.
pub open spec fn ends_lone_quote(t: Seq<char>, s: int, e: int) -> bool {
    let k = last_solid(t, s, e);
    let j = last_solid(t, s, k);
    occurs_at(t, TAG_START@, s) && k >= s && t[k] == '"' && j >= s && t[j] == '='
}

/// The line that starts at `i` is one the parser must not be handed.
pub open spec fn unsafe_line(t: Seq<char>, i: int) -> bool {
    let e = line_end(t, i);
    let s = skip_pad(t, i, e);
    starts_panicking_tag(t, s) || ends_lone_quote(t, s, e)
}

pub open spec fn line_start(t: Seq<char>, i: int) -> bool {
    i == 0 || (0 < i <= t.len() && t[i - 1] == '\n')
}

/// Some line of the text is unsafe to parse.
pub open spec fn has_unsafe_line(t: Seq<char>) -> bool {
    exists|i: int| 0 <= i <= t.len() && line_start(t, i) && #[trigger] unsafe_line(t, i)
}

fn line_end_of(cs: &Vec<char>, i: usize) -> (r: usize)
    requires
        i <= cs.len(),
    ensures
        r as int == line_end(cs@, i as int),
        i <= r <= cs.len(),
{
    let mut k = i;
    while k < cs.len() && cs[k] != '\n'
        invariant
            i <= k <= cs.len(),
            line_end(cs@, i as int) == line_end(cs@, k as int),
        decreases cs.len() - k,
    {
        k = k + 1;
    }
    k
}

fn pad_char(c: char) -> (r: bool)
    ensures
        r == is_pad(c),
{
    c == ' ' || c == '\t' || c == '\r' || c == '\x0B' || c == '\x0C' || (c as u32) > 0x7f
}

fn skip_pad_of(cs: &Vec<char>, i: usize, e: usize) -> (r: usize)
    requires
        i <= e <= cs.len(),
    ensures
        r as int == skip_pad(cs@, i as int, e as int),
        i <= r <= e,
{
    let mut k = i;
    while k < e && pad_char(cs[k])
        invariant
            i <= k <= e,
            e <= cs.len(),
            skip_pad(cs@, i as int, e as int) == skip_pad(cs@, k as int, e as int),
        decreases e - k,
    {
        k = k + 1;
    }
    k
}

/// The last index in `s..e` that is not padding, as `Some`, or `None`.
fn last_solid_of(cs: &Vec<char>, s: usize, e: usize) -> (r: Option<usize>)
    requires
        s <= e <= cs.len(),
    ensures
        match r {
            Some(k) => k as int == last_solid(cs@, s as int, e as int) && s <= k < e,
            None => last_solid(cs@, s as int, e as int) == s - 1,
        },
{
    let mut k = e;
    while k > s && pad_char(cs[k - 1])
        invariant
            s <= k <= e,
            e <= cs.len(),
            last_solid(cs@, s as int, e as int) == last_solid(cs@, s as int, k as int),
        decreases k,
    {
        k = k - 1;
    }
    if k == s {
        None
    } else {
        Some(k - 1)
    }
}

fn unsafe_line_at(cs: &Vec<char>, i: usize) -> (r: bool)
    requires
        i <= cs.len(),
    ensures
        r == unsafe_line(cs@, i as int),
{
    let e = line_end_of(cs, i);
    let s = skip_pad_of(cs, i, e);
    let panics = matches_at(cs, &chars_of(EXTINF_TAG), s) || matches_at(cs, &chars_of(DATE_RANGE_TAG), s)
        || matches_at(cs, &chars_of(BYTE_RANGE_TAG), s) || matches_at(cs, &chars_of(MAP_TAG), s);
    if panics {
        return true;
    }
    if !matches_at(cs, &chars_of(TAG_START), s) {
        return false;
    }
    match last_solid_of(cs, s, e) {
        None => false,
        Some(k) => {
            if cs[k] != '"' {
                return false;
            }
            match last_solid_of(cs, s, k) {
                None => false,
                Some(j) => cs[j] == '=',
            }
        },
    }
}

/// Whether some line of `text` is unsafe to hand to the playlist parser.
pub fn has_unsafe_lines(text: &str) -> (r: bool)
    ensures
        r == has_unsafe_line(text@),
{
    let cs = chars_of(text);
    let mut i: usize = 0;
    while i <= cs.len()
        invariant
            cs@ == text@,
            forall|j: int| 0 <= j < i && line_start(cs@, j) ==> !#[trigger] unsafe_line(cs@, j),
        decreases cs.len() + 1 - i,
    {
        if (i == 0 || cs[i - 1] == '\n') && unsafe_line_at(&cs, i) {
            return true;
        }
        if i == cs.len() {
            return false;
        }
        i = i + 1;
    }
    false
}

} // verus!
