//! Decimal integers as they appear in API payloads (epoch milliseconds).

use vstd::prelude::*;

verus! {

pub open spec fn is_digit(c: char) -> bool {
    '0' <= c && c <= '9'
}

pub open spec fn digit_value(c: char) -> int {
    c as int - '0' as int
}

pub open spec fn all_digits(s: Seq<char>) -> bool {
    forall|i: int| 0 <= i < s.len() ==> is_digit(#[trigger] s[i])
}

/// The value of a run of decimal digits, most significant first.
pub open spec fn digits_value(s: Seq<char>) -> int
    decreases s.len(),
{
    if s.len() == 0 {
        0
    } else {
        digits_value(s.drop_last()) * 10 + digit_value(s.last())
    }
}

/// The digits after an optional sign.
pub open spec fn unsigned_part(s: Seq<char>) -> Seq<char> {
    if s.len() > 0 && (s[0] == '-' || s[0] == '+') {
        s.skip(1)
    } else {
        s
    }
}

/// The `i64` that `s` writes in decimal: an optional `+` or `-`, then one or
/// more digits, with a value in range; `None` for anything else.
pub open spec fn decimal_i64(s: Seq<char>) -> Option<i64> {
    let body = unsigned_part(s);
    let v = if s.len() > 0 && s[0] == '-' {
        -digits_value(body)
    } else {
        digits_value(body)
    };
    if body.len() == 0 || !all_digits(body) || v < i64::MIN || v > i64::MAX {
        None
    } else {
        Some(v as i64)
    }
}

proof fn lemma_digits_value_grows(s: Seq<char>, c: char)
    requires
        all_digits(s),
        is_digit(c),
    ensures
        digits_value(s) >= 0,
        digits_value(s.push(c)) >= digits_value(s),
        digits_value(s.push(c)) == digits_value(s) * 10 + digit_value(c),
    decreases s.len(),
{
    assert(s.push(c).drop_last() =~= s);
    if s.len() > 0 {
        assert(all_digits(s.drop_last()));
        lemma_digits_value_grows(s.drop_last(), s.last());
        assert(s.drop_last().push(s.last()) =~= s);
    }
}

/// Reads a decimal `i64`: an optional sign, then one or more ASCII digits.
pub fn parse_i64(s: &str) -> (r: Option<i64>)
    ensures
        r == decimal_i64(s@),
{
    let cs = crate::text::chars_of(s);
    let ghost body = unsigned_part(s@);
    let neg = cs.len() > 0 && cs[0] == '-';
    let start: usize = if cs.len() > 0 && (cs[0] == '-' || cs[0] == '+') { 1 } else { 0 };
    assert(body =~= cs@.skip(start as int));
    if start == cs.len() {
        return None;
    }
    let limit: i128 = 0x8000_0000_0000_0000;
    let mut acc: i128 = 0;
    let mut big = false;
    let mut k: usize = start;
    while k < cs.len()
        invariant
            start <= k <= cs.len(),
            body == cs@.skip(start as int),
            body == unsigned_part(s@),
            cs@ == s@,
            all_digits(cs@.subrange(start as int, k as int)),
            !big ==> acc == digits_value(cs@.subrange(start as int, k as int)) && 0 <= acc <= limit,
            big ==> digits_value(cs@.subrange(start as int, k as int)) > limit,
            limit == 0x8000_0000_0000_0000,
        decreases cs.len() - k,
    {
        let c = cs[k];
        if !('0' <= c && c <= '9') {
            proof {
                assert(body[k - start] == c);
                assert(!is_digit(body[k - start]));
                assert(!all_digits(body));
            }
            return None;
        }
        proof {
            let t = cs@.subrange(start as int, k as int);
            assert(cs@.subrange(start as int, k + 1) =~= t.push(c));
            lemma_digits_value_grows(t, c);
        }
        if !big {
            let d = (c as u32 - '0' as u32) as i128;
            acc = acc * 10 + d;
            if acc > limit {
                big = true;
            }
        }
        k = k + 1;
    }
    assert(cs@.subrange(start as int, cs.len() as int) =~= body);
    if big {
        return None;
    }
    if neg {
        Some((0 - acc) as i64)
    } else if acc == limit {
        None
    } else {
        Some(acc as i64)
    }
}

} // verus!
