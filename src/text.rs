//! Character-sequence helpers shared by the scanners of this crate.

use vstd::prelude::*;

verus! {

/// `p` occurs in `s` starting at index `i`.
pub open spec fn occurs_at(s: Seq<char>, p: Seq<char>, i: int) -> bool {
    0 <= i && i + p.len() <= s.len() && s.subrange(i, i + p.len()) == p
}

/// `s` begins with `p`.
pub open spec fn has_prefix(s: Seq<char>, p: Seq<char>) -> bool {
    occurs_at(s, p, 0)
}

/// `p` occurs somewhere in `s`.
pub open spec fn contains_seq(s: Seq<char>, p: Seq<char>) -> bool {
    exists|i: int| occurs_at(s, p, i)
}

/// Index of the first occurrence of `p` in `s` at or after `from`.
pub open spec fn find_from(s: Seq<char>, p: Seq<char>, from: int) -> Option<int>
    decreases s.len() + 1 - from,
{
    if from < 0 || from + p.len() > s.len() {
        None
    } else if occurs_at(s, p, from) {
        Some(from)
    } else {
        find_from(s, p, from + 1)
    }
}

/// What `find_from` returns is an occurrence, and no earlier one exists.
pub proof fn lemma_find_from(s: Seq<char>, p: Seq<char>, from: int)
    requires
        0 <= from,
    ensures
        match find_from(s, p, from) {
            Some(i) => from <= i && occurs_at(s, p, i) && forall|j: int|
                from <= j < i ==> !occurs_at(s, p, j),
            None => forall|j: int| from <= j ==> !occurs_at(s, p, j),
        },
    decreases s.len() + 1 - from,
{
    if from + p.len() > s.len() {
    } else if occurs_at(s, p, from) {
    } else {
        lemma_find_from(s, p, from + 1);
    }
}

/// The characters of `s`, in order.
pub fn chars_of(s: &str) -> (r: Vec<char>)
    ensures
        r@ == s@,
{
    let mut r: Vec<char> = Vec::new();
    for c in it: s.chars()
        invariant
            r@ == it.seq().take(it.index() as int),
    {
        r.push(c);
    }
    r
}

/// The characters of an optional text.
pub open spec fn text_of(o: Option<String>) -> Option<Seq<char>> {
    match o {
        Some(s) => Some(s@),
        None => None,
    }
}

/// Whether `p` occurs in `s` at index `i`.
pub fn matches_at(s: &Vec<char>, p: &Vec<char>, i: usize) -> (r: bool)
    ensures
        r == occurs_at(s@, p@, i as int),
{
    if i > s.len() || p.len() > s.len() - i {
        return false;
    }
    let mut k: usize = 0;
    while k < p.len()
        invariant
            i + p.len() <= s.len(),
            k <= p.len(),
            forall|j: int| 0 <= j < k ==> s@[i + j] == p@[j],
        decreases p.len() - k,
    {
        if s[i + k] != p[k] {
            assert(s@.subrange(i as int, i + p.len())[k as int] != p@[k as int]);
            return false;
        }
        k = k + 1;
    }
    assert(s@.subrange(i as int, i + p.len()) =~= p@);
    true
}

/// Whether `s` begins with `p`.
pub fn starts_with(s: &Vec<char>, p: &Vec<char>) -> (r: bool)
    ensures
        r == has_prefix(s@, p@),
{
    matches_at(s, p, 0)
}

/// The first occurrence of `p` in `s` at or after `from`.
pub fn find(s: &Vec<char>, p: &Vec<char>, from: usize) -> (r: Option<usize>)
    ensures
        match r {
            Some(i) => find_from(s@, p@, from as int) == Some(i as int),
            None => find_from(s@, p@, from as int) is None,
        },
{
    let mut i = from;
    while i <= s.len() && p.len() <= s.len() - i
        invariant
            from <= i,
            find_from(s@, p@, from as int) == find_from(s@, p@, i as int),
        decreases s.len() + 1 - i,
    {
        if matches_at(s, p, i) {
            return Some(i);
        }
        if i == s.len() {
            assert(find_from(s@, p@, i as int + 1) is None);
            return None;
        }
        i = i + 1;
    }
    None
}

/// Whether `p` occurs anywhere in `s`.
pub fn contains(s: &Vec<char>, p: &Vec<char>) -> (r: bool)
    ensures
        r == contains_seq(s@, p@),
{
    proof {
        lemma_find_from(s@, p@, 0);
    }
    match find(s, p, 0) {
        Some(_) => true,
        None => false,
    }
}

/// A character that separates an identifier from what precedes it in a URL.
pub open spec fn is_id_sep(c: char) -> bool {
    c == '-' || c == '/'
}

/// Index of the last separator among the first `n` characters of `s`, or -1.
pub open spec fn last_sep_before(s: Seq<char>, n: int) -> int
    decreases n,
{
    if n <= 0 {
        -1
    } else if is_id_sep(s[n - 1]) {
        n - 1
    } else {
        last_sep_before(s, n - 1)
    }
}

/// What follows the last `-` or `/` of `s`; all of `s` when it holds neither.
pub open spec fn after_last_sep(s: Seq<char>) -> Seq<char> {
    s.skip(last_sep_before(s, s.len() as int) + 1)
}

proof fn lemma_last_sep_bounds(s: Seq<char>, n: int)
    requires
        0 <= n <= s.len(),
    ensures
        -1 <= last_sep_before(s, n) < n,
    decreases n,
{
    if n > 0 && !is_id_sep(s[n - 1]) {
        lemma_last_sep_bounds(s, n - 1);
    }
}

/// The text after the last `-` or `/` of `s`.
pub fn tail_after_sep(s: &str) -> (r: String)
    ensures
        r@ == after_last_sep(s@),
{
    let cs = chars_of(s);
    let mut n = cs.len();
    while n > 0 && !(cs[n - 1] == '-' || cs[n - 1] == '/')
        invariant
            n <= cs.len(),
            last_sep_before(cs@, cs.len() as int) == last_sep_before(cs@, n as int),
        decreases n,
    {
        n = n - 1;
    }
    proof {
        lemma_last_sep_bounds(cs@, cs.len() as int);
        assert(s@.subrange(n as int, s@.len() as int) =~= after_last_sep(s@));
    }
    s.substring_char(n, cs.len()).to_owned()
}

/// Whether two texts are equal, character for character.
pub fn same_text(a: &str, b: &str) -> (r: bool)
    ensures
        r == (a@ == b@),
{
    let ca = chars_of(a);
    let cb = chars_of(b);
    if ca.len() != cb.len() {
        return false;
    }
    let r = matches_at(&ca, &cb, 0);
    proof {
        if r {
            assert(ca@ =~= ca@.subrange(0, cb@.len() as int));
        }
        if a@ == b@ {
            assert(ca@.subrange(0, cb@.len() as int) =~= cb@);
        }
    }
    r
}

} // verus!
