//! URLs, handled by the url crate. Each operation that this crate needs is a
//! call on the URL that a text parses to, and hands back the resulting URL's
//! serialization.

use vstd::prelude::*;
use crate::error::CbcError;
use crate::text::text_of;

verus! {

#[verifier::external_type_specification]
#[verifier::external_body]
pub struct ExParseError(url::ParseError);

/// The serialization of `s` parsed as an absolute URL, if it parses.
pub uninterp spec fn url_serialization(s: Seq<char>) -> Option<Seq<char>>;

/// The URL that `s` parses to with its query removed, if `s` parses.
pub uninterp spec fn url_query_cleared(s: Seq<char>) -> Option<Seq<char>>;

/// The URL that `s` parses to with its last path segment removed; `None`
/// when `s` does not parse or cannot be a base (has no path segments).
pub uninterp spec fn url_segment_popped(s: Seq<char>) -> Option<Seq<char>>;

/// The last path segment of the URL that `s` parses to; `None` when `s` does
/// not parse or cannot be a base.
pub uninterp spec fn url_last_segment(s: Seq<char>) -> Option<Seq<char>>;

/// Relies on url's `Url::parse`: parses `s` as an absolute URL and hands back
/// its serialization (`String::from(url)`).
#[verifier::external_body]
pub(crate) fn parse_url(s: &str) -> (r: Result<String, url::ParseError>)
    ensures
        r is Ok <==> url_serialization(s@) is Some,
        r matches Ok(u) ==> u@ == url_serialization(s@)->0,
{
    url::Url::parse(s).map(String::from)
}

/// Relies on url's `Url::set_query(None)`, applied to the URL that `s` parses
/// to, handing back the serialization.
#[verifier::external_body]
pub(crate) fn clear_query(s: &str) -> (r: Option<String>)
    ensures
        text_of(r) == url_query_cleared(s@),
{
    let mut u = url::Url::parse(s).ok()?;
    u.set_query(None);
    Some(u.into())
}

/// Relies on url's `Url::path_segments_mut` and `PathSegmentsMut::pop`,
/// applied to the URL that `s` parses to; `None` where `path_segments_mut`
/// refuses a URL that cannot be a base.
#[verifier::external_body]
pub(crate) fn pop_segment(s: &str) -> (r: Option<String>)
    ensures
        text_of(r) == url_segment_popped(s@),
{
    let mut u = url::Url::parse(s).ok()?;
    u.path_segments_mut().ok()?.pop();
    Some(u.into())
}

/// Relies on url's `Url::path_segments`, taking the last segment of the URL
/// that `s` parses to; `None` for a URL that cannot be a base.
#[verifier::external_body]
pub(crate) fn last_segment(s: &str) -> (r: Option<String>)
    ensures
        text_of(r) == url_last_segment(s@),
{
    let u = url::Url::parse(s).ok()?;
    u.path_segments()?.last().map(String::from)
}

/// `variant` under the directory `dir`.
pub fn join_to_directory(dir: &str, variant: &str) -> (r: String)
    ensures
        r@ == dir@ + "/"@ + variant@,
{
    let mut out = String::from_str(dir);
    out.append("/");
    out.append(variant);
    out
}

/// Where a variant URI points, given the URL of its master playlist: an
/// absolute URI as it stands; a relative one under the master's directory
/// (the master URL without its query and last path segment); `None` when the
/// master URL does not parse or has no directory.
pub open spec fn absolute_variant(master: Seq<char>, variant: Seq<char>) -> Option<Seq<char>> {
    if url_serialization(variant) is Some {
        Some(variant)
    } else {
        match url_query_cleared(master) {
            Some(q) => match url_segment_popped(q) {
                Some(d) => Some(d + "/"@ + variant),
                None => None,
            },
            None => None,
        }
    }
}

/// Makes the variant URI `variant` absolute against the master playlist's URL.
pub fn to_absolute(master_url: &str, variant: &str) -> (r: Result<String, CbcError>)
    ensures
        match absolute_variant(master_url@, variant@) {
            Some(a) => r matches Ok(s) && s@ == a,
            None => r matches Err(CbcError::InvalidUrl),
        },
{
    if parse_url(variant).is_ok() {
        return Ok(variant.to_owned());
    }
    let q = match clear_query(master_url) {
        Some(q) => q,
        None => return Err(CbcError::InvalidUrl),
    };
    match pop_segment(q.as_str()) {
        Some(d) => Ok(join_to_directory(d.as_str(), variant)),
        None => Err(CbcError::InvalidUrl),
    }
}

} // verus!
