//! Choice of one fixed-quality variant from an HLS master playlist, for
//! players that mishandle adaptive bitrate selection.

use vstd::prelude::*;
use crate::error::CbcError;
use crate::m3u8_lines::{has_unsafe_line, has_unsafe_lines};
use crate::urls::{absolute_variant, to_absolute};
use hls_m3u8::tags::VariantStream as HlsVariant;

verus! {

#[verifier::external_type_specification]
#[verifier::external_body]
pub struct ExHlsError(hls_m3u8::Error);

/// A variant stream of a master playlist: a rendition's bandwidth and the URI
/// of its media playlist.
pub struct VariantStream {
    pub bandwidth: u64,
    pub uri: String,
}

impl VariantStream {
    /// The URI of the variant's media playlist.
    pub fn uri(&self) -> (r: String)
        ensures
            r@ == self.uri@,
    {
        self.uri.clone()
    }
}

/// The variants of a parsed master playlist, as (bandwidth, URI) in document
/// order; `None` when the text is not a master playlist.
pub uninterp spec fn hls_variants(text: Seq<char>) -> Option<Seq<(u64, Seq<char>)>>;

pub open spec fn variants_view(v: Seq<VariantStream>) -> Seq<(u64, Seq<char>)> {
    v.map_values(|x: VariantStream| (x.bandwidth, x.uri@))
}

/// Relies on hls_m3u8's `MasterPlaylist::try_from`, which keeps the variant
/// streams (standard and I-frame alike) in document order; each is read as
/// its bandwidth and URI. Text with a line that its tag parsers may panic on
/// (see `has_unsafe_line`) is kept from it.
#[verifier::external_body]
fn parse_variants(text: &str) -> (r: Result<Vec<VariantStream>, hls_m3u8::Error>)
    requires
        !has_unsafe_line(text@),
    ensures
        r is Ok <==> hls_variants(text@) is Some,
        r matches Ok(v) ==> variants_view(v@) == hls_variants(text@)->0,
{
    let mp = hls_m3u8::MasterPlaylist::try_from(text)?;
    Ok(mp.variant_streams.iter().map(|v| match v {
        HlsVariant::ExtXStreamInf { uri, .. } | HlsVariant::ExtXIFrame { uri, .. } => {
            VariantStream { bandwidth: v.bandwidth(), uri: uri.to_string() }
        },
    }).collect())
}

/// Variant `i` has the highest bandwidth, and no later variant ties it: among
/// equal maxima the last in document order is chosen.
pub open spec fn is_best(vs: Seq<(u64, Seq<char>)>, i: int) -> bool {
    &&& 0 <= i < vs.len()
    &&& forall|j: int| 0 <= j < vs.len() ==> (#[trigger] vs[j]).0 <= vs[i].0
    &&& forall|j: int| i < j < vs.len() ==> (#[trigger] vs[j]).0 < vs[i].0
}

/// The URI of the best variant of a non-empty list.
pub open spec fn best_uri(vs: Seq<(u64, Seq<char>)>) -> Seq<char> {
    vs[choose|i: int| is_best(vs, i)].1
}

/// At most one variant is the best.
pub proof fn lemma_best_unique(vs: Seq<(u64, Seq<char>)>, i: int, j: int)
    requires
        is_best(vs, i),
        is_best(vs, j),
    ensures
        i == j,
{
    if i < j {
        assert(vs[j].0 < vs[i].0);
        assert(vs[i].0 <= vs[j].0);
    } else if j < i {
        assert(vs[i].0 < vs[j].0);
        assert(vs[j].0 <= vs[i].0);
    }
}

/// The index of the best variant; `None` for an empty list.
pub fn best_variant(variants: &Vec<VariantStream>) -> (r: Option<usize>)
    ensures
        r is None <==> variants.len() == 0,
        r matches Some(i) ==> is_best(variants_view(variants@), i as int),
{
    if variants.len() == 0 {
        return None;
    }
    let ghost vs = variants_view(variants@);
    let mut b: usize = 0;
    let mut i: usize = 1;
    while i < variants.len()
        invariant
            1 <= i <= variants.len(),
            vs == variants_view(variants@),
            is_best(vs.take(i as int), b as int),
        decreases variants.len() - i,
    {
        proof {
            assert(vs.take(i as int)[b as int] == vs[b as int]);
        }
        if variants[i].bandwidth >= variants[b].bandwidth {
            b = i;
        }
        proof {
            assert forall|j: int| 0 <= j < i + 1 implies (#[trigger] vs.take(i + 1)[j]).0 <= vs.take(i + 1)[b as int].0 by {
                if j < i {
                    assert(vs.take(i as int)[j] == vs[j]);
                }
            }
            assert forall|j: int| b < j < i + 1 implies (#[trigger] vs.take(i + 1)[j]).0 < vs.take(i + 1)[b as int].0 by {
                if j < i {
                    assert(vs.take(i as int)[j] == vs[j]);
                }
            }
        }
        i = i + 1;
    }
    assert(vs.take(i as int) =~= vs);
    Some(b)
}

/// The URI of the highest-bandwidth variant (the last of equal maxima);
/// `NoVariants` for an empty list.
pub fn select_best(variants: &Vec<VariantStream>) -> (r: Result<String, CbcError>)
    ensures
        variants.len() == 0 ==> r matches Err(CbcError::NoVariants),
        variants.len() > 0 ==> (r matches Ok(u) && u@ == best_uri(variants_view(variants@))),
{
    match best_variant(variants) {
        Some(i) => {
            proof {
                let vs = variants_view(variants@);
                lemma_best_unique(vs, i as int, choose|k: int| is_best(vs, k));
            }
            Ok(variants[i].uri())
        },
        None => Err(CbcError::NoVariants),
    }
}

/// What choosing from a master playlist's text gives: a failure when a line
/// is unsafe to parse (a media-segment tag that a master playlist cannot hold,
/// or a tag ending in a lone quote), does not parse or holds no variant, else
/// the best variant's URI.
pub open spec fn choice_of(text: Seq<char>) -> Result<Seq<char>, CbcError> {
    if has_unsafe_line(text) {
        Err(CbcError::MalformedPlaylist)
    } else {
        match hls_variants(text) {
        None => Err(CbcError::MalformedPlaylist),
        Some(vs) => if vs.len() == 0 {
            Err(CbcError::NoVariants)
        } else {
            Ok(best_uri(vs))
        },
        }
    }
}

/// Parses a master playlist and returns the URI of its highest-bandwidth
/// variant.
pub fn parse_master_playlist(input: &str) -> (r: Result<String, CbcError>)
    ensures
        match choice_of(input@) {
            Ok(u) => r matches Ok(s) && s@ == u,
            Err(e) => r matches Err(f) && f == e,
        },
{
    if has_unsafe_lines(input) {
        return Err(CbcError::MalformedPlaylist);
    }
    let variants = match parse_variants(input) {
        Ok(v) => v,
        Err(_) => return Err(CbcError::MalformedPlaylist),
    };
    select_best(&variants)
}

/// Given the URL of a master playlist and its text, the absolute URL of its
/// highest-bandwidth variant.
pub fn get_best_stream(url: &str, mp: &str) -> (r: Result<String, CbcError>)
    ensures
        match choice_of(mp@) {
            Ok(u) => match absolute_variant(url@, u) {
                Some(a) => r matches Ok(s) && s@ == a,
                None => r matches Err(CbcError::InvalidUrl),
            },
            Err(e) => r matches Err(f) && f == e,
        },
{
    let best = parse_master_playlist(mp)?;
    to_absolute(url, best.as_str())
}

} // verus!
