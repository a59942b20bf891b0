//! Resolution of a user-supplied identifier (a bare identifier or a watch-page
//! URL) into the broadcaster's canonical identifier.
//!
//! An identifier is a run of digits (`30045`) or two runs joined by a dot
//! (`9.6452417`). A URL resolves to the identifier that ends its last path
//! segment: what follows the last `-` of it (so `.../event-name-30045?x=1`
//! gives `30045`).

use vstd::prelude::*;
use crate::error::CbcError;
use crate::number::{all_digits, is_digit};
use crate::text::{after_last_sep, is_id_sep, last_sep_before, tail_after_sep};
use crate::urls::{last_segment, url_last_segment};

verus! {

/// One or more ASCII digits.
pub open spec fn is_number(s: Seq<char>) -> bool {
    s.len() > 0 && all_digits(s)
}

/// Two runs of digits joined by one dot.
pub open spec fn is_dotted_pair(s: Seq<char>) -> bool {
    exists|k: int|
        0 <= k < s.len() && s[k] == '.' && is_number(s.take(k)) && is_number(#[trigger] s.skip(k + 1))
}

/// The shape of a canonical identifier.
pub open spec fn is_id_shape(s: Seq<char>) -> bool {
    is_number(s) || is_dotted_pair(s)
}

/// The canonical identifier that `input` stands for: `input` itself when it
/// has the shape of one, else the identifier that ends its path when it is a
/// URL; `None` when neither gives one.
pub open spec fn resolved_id(input: Seq<char>) -> Option<Seq<char>> {
    if is_id_shape(input) {
        Some(input)
    } else {
        match url_last_segment(input) {
            Some(seg) => if is_id_shape(after_last_sep(seg)) {
                Some(after_last_sep(seg))
            } else {
                None
            },
            None => None,
        }
    }
}

/// Whether `s` has the shape of a canonical identifier.
pub fn is_identifier(s: &str) -> (r: bool)
    ensures
        r == is_id_shape(s@),
{
    let cs = crate::text::chars_of(s);
    let mut k: usize = 0;
    while k < cs.len() && '0' <= cs[k] && cs[k] <= '9'
        invariant
            k <= cs.len(),
            cs@ == s@,
            all_digits(cs@.take(k as int)),
        decreases cs.len() - k,
    {
        assert(cs@.take(k + 1) =~= cs@.take(k as int).push(cs[k as int]));
        k = k + 1;
    }
    if k == cs.len() {
        proof {
            assert(cs@.take(k as int) =~= cs@);
            if is_dotted_pair(s@) {
                let j = choose|j: int|
                    0 <= j < s@.len() && s@[j] == '.' && is_number(s@.take(j)) && is_number(
                        #[trigger] s@.skip(j + 1),
                    );
                assert(cs@.take(k as int)[j] == s@[j]);
            }
        }
        return k > 0;
    }
    if k == 0 || cs[k] != '.' {
        proof {
            if is_dotted_pair(s@) {
                let j = choose|j: int|
                    0 <= j < s@.len() && s@[j] == '.' && is_number(s@.take(j)) && is_number(
                        #[trigger] s@.skip(j + 1),
                    );
                if j < k {
                    assert(cs@.take(k as int)[j] == s@[j]);
                } else if j > k {
                    assert(s@.take(j)[k as int] == s@[k as int]);
                }
            }
            assert(!is_digit(s@[k as int]));
        }
        return false;
    }
    let mut m: usize = k + 1;
    while m < cs.len() && '0' <= cs[m] && cs[m] <= '9'
        invariant
            k + 1 <= m <= cs.len(),
            cs@ == s@,
            all_digits(cs@.subrange(k + 1, m as int)),
        decreases cs.len() - m,
    {
        assert(cs@.subrange(k + 1, m + 1) =~= cs@.subrange(k + 1, m as int).push(cs[m as int]));
        m = m + 1;
    }
    let r = m == cs.len() && m > k + 1;
    proof {
        let kk = k as int;
        if r {
            assert(s@.skip(kk + 1) =~= cs@.subrange(kk + 1, m as int));
            assert(s@.take(kk) =~= cs@.take(kk));
            assert(is_dotted_pair(s@));
        } else {
            if is_dotted_pair(s@) {
                let j = choose|j: int|
                    0 <= j < s@.len() && s@[j] == '.' && is_number(s@.take(j)) && is_number(
                        #[trigger] s@.skip(j + 1),
                    );
                if j < kk {
                    assert(cs@.take(kk)[j] == s@[j]);
                } else if j > kk {
                    assert(s@.take(j)[kk] == s@[kk]);
                } else if m < cs.len() {
                    assert(s@.skip(j + 1)[m - kk - 1] == s@[m as int]);
                }
            }
            assert(!is_number(s@)) by {
                assert(!is_digit(s@[kk]));
            }
        }
    }
    r
}

/// The identifier that ends a URL's last path segment `seg`, when what
/// follows its last `-` has the shape of one.
pub fn id_from_segment(seg: &str) -> (r: Option<String>)
    ensures
        is_id_shape(after_last_sep(seg@)) ==> (r matches Some(id) && id@ == after_last_sep(seg@)),
        !is_id_shape(after_last_sep(seg@)) ==> r is None,
{
    let id = tail_after_sep(seg);
    if is_identifier(id.as_str()) {
        Some(id)
    } else {
        None
    }
}

/// Resolves a bare identifier or a watch-page URL into the canonical identifier.
pub fn parse_cbc_id(input: &str) -> (r: Result<String, CbcError>)
    ensures
        match resolved_id(input@) {
            Some(id) => r matches Ok(s) && s@ == id,
            None => r matches Err(CbcError::InvalidIdentifier),
        },
        is_number(input@) ==> (r matches Ok(s) && s@ == input@),
{
    if is_identifier(input) {
        return Ok(input.to_owned());
    }
    match last_segment(input) {
        Some(seg) => match id_from_segment(seg.as_str()) {
            Some(id) => Ok(id),
            None => Err(CbcError::InvalidIdentifier),
        },
        None => Err(CbcError::InvalidIdentifier),
    }
}

/// Checks command-line input before any request is made: the canonical
/// identifier, or the message `invalid url`.
pub fn probably_cbc(input: &str) -> (r: Result<String, String>)
    ensures
        match resolved_id(input@) {
            Some(id) => r matches Ok(s) && s@ == id,
            None => r matches Err(m) && m@ == "invalid url"@,
        },
{
    match parse_cbc_id(input) {
        Ok(id) => Ok(id),
        Err(_) => Err(String::from_str("invalid url")),
    }
}

/// Every character of an identifier is a digit or a dot.
proof fn lemma_id_chars(s: Seq<char>)
    requires
        is_id_shape(s),
    ensures
        forall|i: int| 0 <= i < s.len() ==> is_digit(#[trigger] s[i]) || s[i] == '.',
{
    if !is_number(s) {
        let k = choose|k: int|
            0 <= k < s.len() && s[k] == '.' && is_number(s.take(k)) && is_number(#[trigger] s.skip(k + 1));
        assert forall|i: int| 0 <= i < s.len() implies is_digit(#[trigger] s[i]) || s[i] == '.' by {
            if i < k {
                assert(s.take(k)[i] == s[i]);
            } else if i > k {
                assert(s.skip(k + 1)[i - k - 1] == s[i]);
            }
        }
    }
}

/// Scanning back for a separator from `n` stops at `p` (-1 for none) when no
/// separator comes after it.
proof fn lemma_last_sep_at(s: Seq<char>, n: int, p: int)
    requires
        -1 <= p < n <= s.len(),
        p >= 0 ==> is_id_sep(s[p]),
        forall|i: int| p < i < n ==> !is_id_sep(s[i]),
    ensures
        last_sep_before(s, n) == p,
    decreases n - p,
{
    if n - 1 > p {
        lemma_last_sep_at(s, n - 1, p);
    }
}

/// A string of digits is its own canonical identifier.
pub proof fn lemma_number_resolves_to_itself(s: Seq<char>)
    requires
        is_number(s),
    ensures
        resolved_id(s) == Some(s),
{
}

/// A URL whose last path segment is `slug-ID`, or `ID` alone, resolves to
/// `ID`, whatever query or fragment follows. `prefix` is what precedes `ID`
/// in that segment.
pub proof fn lemma_url_resolves_to_trailing_id(input: Seq<char>, prefix: Seq<char>, id: Seq<char>)
    requires
        exists|i: int| 0 <= i < input.len() && input[i] == ':',
        url_last_segment(input) == Some(prefix + id),
        prefix.len() == 0 || is_id_sep(prefix.last()),
        is_id_shape(id),
    ensures
        resolved_id(input) == Some(id),
{
    let c = choose|i: int| 0 <= i < input.len() && input[i] == ':';
    if is_id_shape(input) {
        lemma_id_chars(input);
        assert(is_digit(input[c]) || input[c] == '.');
    }
    lemma_id_chars(id);
    let seg = prefix + id;
    assert forall|i: int| prefix.len() - 1 < i < seg.len() implies !is_id_sep(seg[i]) by {
        assert(seg[i] == id[i - prefix.len()]);
    }
    if prefix.len() > 0 {
        assert(seg[prefix.len() - 1] == prefix.last());
    }
    lemma_last_sep_at(seg, seg.len() as int, prefix.len() - 1);
    assert(after_last_sep(seg) =~= id);
}

} // verus!
