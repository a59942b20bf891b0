//! Rewriting of a user-supplied SOCKS proxy specification into the form that
//! the in-process HTTP client needs and the form that the external player
//! process needs. The two differ in how they ask for remote DNS resolution.

use vstd::prelude::*;
use crate::text::{chars_of, contains, contains_seq, has_prefix, starts_with};

verus! {

pub open spec fn socks4() -> Seq<char> {
    seq!['s', 'o', 'c', 'k', 's', '4', ':']
}

pub open spec fn socks4a() -> Seq<char> {
    seq!['s', 'o', 'c', 'k', 's', '4', 'a', ':']
}

pub open spec fn socks5() -> Seq<char> {
    seq!['s', 'o', 'c', 'k', 's', '5', ':']
}

pub open spec fn socks5h() -> Seq<char> {
    seq!['s', 'o', 'c', 'k', 's', '5', 'h', ':']
}

/// The separator that marks a specification which already names a scheme.
pub open spec fn scheme_sep() -> Seq<char> {
    seq![':', '/', '/']
}

/// `s` with its leading scheme `from` replaced by `to`, when it starts with `from`.
pub open spec fn swap_scheme(s: Seq<char>, from: Seq<char>, to: Seq<char>) -> Seq<char> {
    if has_prefix(s, from) {
        to + s.skip(from.len() as int)
    } else {
        s
    }
}

/// `s` prefixed by `scheme` and `//` unless it already holds `://`.
pub open spec fn with_default_scheme(s: Seq<char>, scheme: Seq<char>) -> Seq<char> {
    if contains_seq(s, scheme_sep()) {
        s
    } else {
        scheme + seq!['/', '/'] + s
    }
}

/// The proxy URL for the in-process HTTP client: `socks5h:` becomes `socks5:`,
/// `socks4:` becomes `socks4a:`, and a missing scheme becomes `socks5://`.
pub open spec fn for_transport(s: Seq<char>) -> Seq<char> {
    let t = if has_prefix(s, socks5h()) {
        swap_scheme(s, socks5h(), socks5())
    } else {
        swap_scheme(s, socks4(), socks4a())
    };
    with_default_scheme(t, socks5())
}

/// The proxy URL for the player process: `socks5:` becomes `socks5h:`,
/// `socks4:` becomes `socks4a:`, and a missing scheme becomes `socks5h://`.
pub open spec fn for_player(s: Seq<char>) -> Seq<char> {
    let t = if has_prefix(s, socks5()) {
        swap_scheme(s, socks5(), socks5h())
    } else {
        swap_scheme(s, socks4(), socks4a())
    };
    with_default_scheme(t, socks5h())
}

/// `scheme + rest`, built from the literal `scheme` and the tail of `spec` from `skip` on.
fn rescheme(scheme: &str, spec: &str, skip: usize) -> (r: String)
    requires
        skip <= spec@.len(),
    ensures
        r@ == scheme@ + spec@.skip(skip as int),
{
    let mut r = String::from_str(scheme);
    let n = spec.unicode_len();
    r.append(spec.substring_char(skip, n));
    proof {
        assert(spec@.subrange(skip as int, n as int) =~= spec@.skip(skip as int));
    }
    r
}

/// `t` prefixed by `default` unless it already holds `://`.
fn ensure_scheme(t: String, default: &str) -> (r: String)
    ensures
        !contains_seq(t@, scheme_sep()) ==> r@ == default@ + t@,
        contains_seq(t@, scheme_sep()) ==> r@ == t@,
{
    let tc = chars_of(t.as_str());
    let sep = vec![':', '/', '/'];
    if contains(&tc, &sep) {
        t
    } else {
        let mut r = String::from_str(default);
        r.append(t.as_str());
        r
    }
}

/// Rewrites a proxy specification for the in-process HTTP client, which always
/// resolves names through the proxy: `socks5h:` becomes `socks5:`, `socks4:`
/// becomes `socks4a:`, and a specification without a scheme gets `socks5://`.
pub fn proxy_url_ureq(spec: &str) -> (r: String)
    ensures
        r@ == for_transport(spec@),
{
    let s = chars_of(spec);
    let t = if starts_with(&s, &vec!['s', 'o', 'c', 'k', 's', '5', 'h', ':']) {
        proof {
            reveal_strlit("socks5:");
            assert("socks5:"@ =~= socks5());
        }
        rescheme("socks5:", spec, 8)
    } else if starts_with(&s, &vec!['s', 'o', 'c', 'k', 's', '4', ':']) {
        proof {
            reveal_strlit("socks4a:");
            assert("socks4a:"@ =~= socks4a());
        }
        rescheme("socks4a:", spec, 7)
    } else {
        spec.to_owned()
    };
    proof {
        reveal_strlit("socks5://");
        assert("socks5://"@ =~= socks5() + seq!['/', '/']);
    }
    ensure_scheme(t, "socks5://")
}

/// Rewrites a proxy specification for the player process, which needs remote
/// DNS asked for explicitly: `socks5:` becomes `socks5h:`, `socks4:` becomes
/// `socks4a:`, and a specification without a scheme gets `socks5h://`.
pub fn proxy_url_streamlink(spec: &str) -> (r: String)
    ensures
        r@ == for_player(spec@),
{
    let s = chars_of(spec);
    let t = if starts_with(&s, &vec!['s', 'o', 'c', 'k', 's', '5', ':']) {
        proof {
            reveal_strlit("socks5h:");
            assert("socks5h:"@ =~= socks5h());
        }
        rescheme("socks5h:", spec, 7)
    } else if starts_with(&s, &vec!['s', 'o', 'c', 'k', 's', '4', ':']) {
        proof {
            reveal_strlit("socks4a:");
            assert("socks4a:"@ =~= socks4a());
        }
        rescheme("socks4a:", spec, 7)
    } else {
        spec.to_owned()
    };
    proof {
        reveal_strlit("socks5h://");
        assert("socks5h://"@ =~= socks5h() + seq!['/', '/']);
    }
    ensure_scheme(t, "socks5h://")
}

/// A character that differs from the pattern's rules the pattern out as a prefix.
proof fn lemma_not_prefix(s: Seq<char>, p: Seq<char>, k: int)
    requires
        0 <= k < p.len(),
        k < s.len(),
        s[k] != p[k],
    ensures
        !has_prefix(s, p),
{
    if has_prefix(s, p) {
        assert(s.subrange(0, p.len() as int)[k] == s[k]);
    }
}

/// `://` at index `k` means the sequence holds a scheme separator.
proof fn lemma_sep_at(s: Seq<char>, k: int)
    requires
        0 <= k,
        k + 3 <= s.len(),
        s[k] == ':',
        s[k + 1] == '/',
        s[k + 2] == '/',
    ensures
        contains_seq(s, scheme_sep()),
{
    assert(s.subrange(k, k + 3) =~= scheme_sep());
    assert(crate::text::occurs_at(s, scheme_sep(), k));
}

/// Rewriting a proxy specification for the HTTP client a second time changes
/// nothing: the rewrite is idempotent.
pub proof fn lemma_transport_idempotent(s: Seq<char>)
    ensures
        for_transport(for_transport(s)) == for_transport(s),
{
    let t = if has_prefix(s, socks5h()) {
        swap_scheme(s, socks5h(), socks5())
    } else {
        swap_scheme(s, socks4(), socks4a())
    };
    let t1 = for_transport(s);
    if contains_seq(t, scheme_sep()) {
        assert(t1 == t);
        if has_prefix(s, socks5h()) {
            assert(t1[5] == '5' && t1[6] == ':');
            lemma_not_prefix(t1, socks4(), 5);
            lemma_not_prefix(t1, socks5h(), 6);
        } else if has_prefix(s, socks4()) {
            assert(t1[5] == '4' && t1[6] == 'a');
            lemma_not_prefix(t1, socks5h(), 5);
            lemma_not_prefix(t1, socks4(), 6);
        }
    } else {
        assert(t1 == socks5() + seq!['/', '/'] + t);
        assert(t1[5] == '5' && t1[6] == ':' && t1[7] == '/' && t1[8] == '/');
        lemma_not_prefix(t1, socks4(), 5);
        lemma_not_prefix(t1, socks5h(), 6);
        lemma_sep_at(t1, 6);
    }
}

/// Rewriting a proxy specification for the player process a second time
/// changes nothing: the rewrite is idempotent.
pub proof fn lemma_player_idempotent(s: Seq<char>)
    ensures
        for_player(for_player(s)) == for_player(s),
{
    let t = if has_prefix(s, socks5()) {
        swap_scheme(s, socks5(), socks5h())
    } else {
        swap_scheme(s, socks4(), socks4a())
    };
    let t1 = for_player(s);
    if contains_seq(t, scheme_sep()) {
        assert(t1 == t);
        if has_prefix(s, socks5()) {
            assert(t1[5] == '5' && t1[6] == 'h');
            lemma_not_prefix(t1, socks4(), 5);
            lemma_not_prefix(t1, socks5(), 6);
        } else if has_prefix(s, socks4()) {
            assert(t1[5] == '4' && t1[6] == 'a');
            lemma_not_prefix(t1, socks5(), 5);
            lemma_not_prefix(t1, socks4(), 6);
        }
    } else {
        assert(t1 == socks5h() + seq!['/', '/'] + t);
        assert(t1[5] == '5' && t1[6] == 'h' && t1[7] == ':' && t1[8] == '/' && t1[9] == '/');
        lemma_not_prefix(t1, socks4(), 5);
        lemma_not_prefix(t1, socks5(), 6);
        lemma_sep_at(t1, 7);
    }
}

} // verus!
