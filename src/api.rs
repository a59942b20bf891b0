//! The content model decoded from the broadcaster's APIs, and the decisions
//! taken on it: which asset to follow, whether a stream is usable, and how a
//! listed item is shown.

use vstd::prelude::*;
use crate::clock::{instant_in_range, local_of, local_time, timestamp_from_ms};
use crate::error::{kind_of, CbcError, ErrorKind};
use crate::number::{decimal_i64, parse_i64};
use crate::text::{after_last_sep, same_text, tail_after_sep, text_of};
use crate::urls::{last_segment, url_last_segment};
use crate::timeline::{
    air_time_text, classify, format_air_time, state_at, LocalDateTime, TimelineState,
};

verus! {

/// The answer to a content-listing query.
pub struct GqlResponse {
    pub data: Data,
}

pub struct Data {
    pub all_content_items: AllContentItems,
}

pub struct AllContentItems {
    pub nodes: Vec<Node>,
}

/// One listed content item.
pub struct Node {
    pub id: i64,
    /// The item's watch-page URL; its identifier ends it.
    pub url: String,
    pub title: String,
    pub flag: Flag,
    /// Publication (air) time, in epoch milliseconds written in decimal.
    pub published_at: String,
    pub updated_at: String,
    /// The item's type, `video` for a playable item.
    pub node_type: String,
    pub media: Media,
}

/// Whether an item is a live broadcast, an on-demand video, or of another
/// (unknown or missing) category, which is classified as not live.
#[derive(Clone, Copy, Debug, PartialEq, Eq, Structural)]
pub enum Flag {
    Live,
    Video,
    Other,
}

pub struct Media {
    /// Length of the airing, in whole seconds.
    pub duration: i64,
    pub has_captions: bool,
    pub stream_type: StreamType,
}

#[derive(Clone, Copy, Debug, PartialEq, Eq, Structural)]
pub enum StreamType {
    Live,
    OnDemand,
}

/// The state that a watch page embeds.
pub struct InitialState {
    pub video: Video,
}

pub struct Video {
    pub current_clip: CurrentClip,
}

/// The next-stage URLs found among a clip's assets.
pub struct StreamURLs {
    pub dai: Option<String>,
    pub medianet: Option<String>,
}

pub struct CurrentClip {
    pub source_id: String,
    pub source: String,
    pub title: String,
    pub published_at: String,
    pub media: CurrentClipMedia,
    pub updated_at: String,
    pub description: String,
}

pub struct CurrentClipMedia {
    pub id: i64,
    pub assets: Vec<Asset>,
    pub duration: i64,
}

/// An asset descriptor: its type and the key (URL) of the next stage.
pub struct Asset {
    pub key: String,
    pub asset_type: String,
}

/// The stream descriptor: the master playlist URL and the backend's status.
pub struct Stream {
    pub url: String,
    pub error_code: i64,
    pub params: Vec<Param>,
}

pub struct Param {
    pub name: String,
    pub value: Value,
}

pub enum Value {
    Integer(i64),
    String(String),
}

/// The key of the last asset of type `wanted`.
pub open spec fn last_key_of(assets: Seq<Asset>, wanted: Seq<char>) -> Option<Seq<char>>
    decreases assets.len(),
{
    if assets.len() == 0 {
        None
    } else if assets.last().asset_type@ == wanted {
        Some(assets.last().key@)
    } else {
        last_key_of(assets.drop_last(), wanted)
    }
}

/// An asset key is found exactly when some asset has the wanted type.
pub proof fn lemma_last_key_found(assets: Seq<Asset>, wanted: Seq<char>)
    ensures
        last_key_of(assets, wanted) is Some <==> exists|i: int|
            0 <= i < assets.len() && (#[trigger] assets[i]).asset_type@ == wanted,
    decreases assets.len(),
{
    if assets.len() > 0 {
        let rest = assets.drop_last();
        lemma_last_key_found(rest, wanted);
        if last_key_of(rest, wanted) is Some {
            let i = choose|i: int| 0 <= i < rest.len() && (#[trigger] rest[i]).asset_type@ == wanted;
            assert(assets[i] == rest[i]);
        }
        if exists|i: int| 0 <= i < assets.len() && (#[trigger] assets[i]).asset_type@ == wanted {
            let i = choose|i: int| 0 <= i < assets.len() && (#[trigger] assets[i]).asset_type@ == wanted;
            if i < assets.len() - 1 {
                assert(rest[i] == assets[i]);
            }
        }
    }
}

/// The key of the last asset of type `wanted`; a failure that names `wanted`
/// when no asset has that type.
pub fn find_asset(assets: &Vec<Asset>, wanted: &str) -> (r: Result<String, CbcError>)
    ensures
        match last_key_of(assets@, wanted@) {
            Some(k) => r matches Ok(key) && key@ == k,
            None => r matches Err(CbcError::MissingAsset { wanted: w }) && w@ == wanted@,
        },
        r is Err <==> forall|i: int| 0 <= i < assets.len() ==> (#[trigger] assets@[i]).asset_type@ != wanted@,
        r matches Err(e) ==> kind_of(e) == ErrorKind::Schema,
{
    proof {
        lemma_last_key_found(assets@, wanted@);
    }
    let mut found: Option<String> = None;
    let mut i: usize = 0;
    while i < assets.len()
        invariant
            i <= assets.len(),
            text_of(found) == last_key_of(assets@.take(i as int), wanted@),
        decreases assets.len() - i,
    {
        proof {
            assert(assets@.take(i + 1).drop_last() =~= assets@.take(i as int));
        }
        if same_text(assets[i].asset_type.as_str(), wanted) {
            found = Some(assets[i].key.clone());
        }
        i = i + 1;
    }
    assert(assets@.take(assets.len() as int) =~= assets@);
    match found {
        Some(k) => Ok(k),
        None => Err(CbcError::MissingAsset { wanted: wanted.to_owned() }),
    }
}

/// The base of the broadcaster's watch-page URLs.
pub const WATCH_URL_BASE: &'static str = "https://www.cbc.ca/player/play/video/";

/// The air time of an item, in epoch milliseconds, when its text is a decimal `i64`.
pub open spec fn air_ms_of(n: Node) -> Option<i64> {
    decimal_i64(n.published_at@)
}

/// The item carries an air time that names a representable instant.
pub open spec fn has_valid_time(n: Node) -> bool {
    air_ms_of(n) matches Some(ms) && instant_in_range(ms as int)
}

/// The item is a playable video rather than a collection or a section.
pub open spec fn is_playable_node(n: Node) -> bool {
    n.node_type@ == "video"@
}

/// The timeline state of an item seen at `now_ms`.
pub open spec fn node_state(n: Node, now_ms: int) -> TimelineState {
    state_at(n.flag, air_ms_of(n)->0 as int, Some(n.media.duration as int), now_ms)
}

/// The parenthesised note that carries the state and the air time.
pub open spec fn note_text(state: TimelineState, time: Seq<char>) -> Seq<char> {
    match state {
        TimelineState::Started => "(STARTED  @ "@ + time + ") "@,
        TimelineState::Upcoming => "(UPCOMING @ "@ + time + ") "@,
        TimelineState::Replay => "("@ + time + ") "@,
    }
}

/// An item's identifier: what follows the last `-` or `/` of its URL's last
/// path segment (of the whole text when it is no URL with segments).
pub open spec fn item_id(url: Seq<char>) -> Seq<char> {
    match url_last_segment(url) {
        Some(seg) => after_last_sep(seg),
        None => after_last_sep(url),
    }
}

/// The line that shows an item: its identifier (as a full watch URL when
/// asked), the note, and the title.
pub open spec fn human_text(n: Node, full_urls: bool, state: TimelineState, time: Seq<char>) -> Seq<char> {
    let prefix = if full_urls { WATCH_URL_BASE@ } else { Seq::empty() };
    prefix + item_id(n.url@) + " - "@ + note_text(state, time) + n.title@
}

impl Node {
    /// The item's identifier, taken from the last path segment of its URL.
    pub fn proper_id(&self) -> (r: String)
        ensures
            r@ == item_id(self.url@),
    {
        match last_segment(self.url.as_str()) {
            Some(seg) => tail_after_sep(seg.as_str()),
            None => tail_after_sep(self.url.as_str()),
        }
    }

    /// Whether the item is a playable video.
    pub fn is_playable(&self) -> (r: bool)
        ensures
            r == is_playable_node(*self),
    {
        same_text(self.node_type.as_str(), "video")
    }

    /// The item's air time, in epoch milliseconds, when it is a decimal
    /// count that names a representable instant.
    pub fn timestamp(&self) -> (r: Result<i64, CbcError>)
        ensures
            r is Ok <==> has_valid_time(*self),
            r matches Ok(m) ==> air_ms_of(*self) == Some(m),
            r matches Err(e) ==> e == CbcError::BadTimestamp,
    {
        match parse_i64(self.published_at.as_str()) {
            Some(ms) => match timestamp_from_ms(ms) {
                Ok(_) => Ok(ms),
                Err(_) => Err(CbcError::BadTimestamp),
            },
            None => Err(CbcError::BadTimestamp),
        }
    }

    /// The item's air time in the zone `tz`.
    pub fn date(&self, tz: &jiff::tz::TimeZone) -> (r: Result<LocalDateTime, CbcError>)
        ensures
            r is Ok <==> has_valid_time(*self),
            r matches Ok(t) ==> t.wf() && local_of(t, air_ms_of(*self)->0 as int),
            r matches Err(e) ==> e == CbcError::BadTimestamp,
    {
        let ms = self.timestamp()?;
        match local_time(ms, tz) {
            Some(t) => Ok(t),
            None => Err(CbcError::BadTimestamp),
        }
    }

    /// Whether the item is airing at `now_ms`: it has started and its
    /// duration has not run out.
    pub fn is_live(&self, now_ms: i64) -> (r: Result<bool, CbcError>)
        ensures
            r is Ok <==> has_valid_time(*self),
            r matches Ok(b) ==> b == ({
                let air = air_ms_of(*self)->0 as int;
                air <= now_ms && now_ms <= air + self.media.duration * 1000
            }),
            r matches Err(e) ==> e == CbcError::BadTimestamp,
    {
        let start = match parse_i64(self.published_at.as_str()) {
            Some(ms) => ms,
            None => return Err(CbcError::BadTimestamp),
        };
        if timestamp_from_ms(start).is_err() {
            return Err(CbcError::BadTimestamp);
        }
        let end = start as i128 + self.media.duration as i128 * 1000;
        Ok(start <= now_ms && (now_ms as i128) <= end)
    }

    /// The line that shows the item in `state`, with its air time `air`
    /// rendered against the local time `now`.
    pub fn render(
        &self,
        full_urls: bool,
        state: TimelineState,
        air: &LocalDateTime,
        now: &LocalDateTime,
    ) -> (r: String)
        requires
            air.wf(),
        ensures
            r@ == human_text(*self, full_urls, state, air_time_text(*air, *now)),
    {
        let time = format_air_time(air, now);
        let mut out = if full_urls {
            String::from_str(WATCH_URL_BASE)
        } else {
            String::new()
        };
        let id = self.proper_id();
        out.append(id.as_str());
        out.append(" - ");
        match state {
            TimelineState::Started => out.append("(STARTED  @ "),
            TimelineState::Upcoming => out.append("(UPCOMING @ "),
            TimelineState::Replay => out.append("("),
        }
        out.append(time.as_str());
        out.append(") ");
        out.append(self.title.as_str());
        assert(out@ =~= human_text(*self, full_urls, state, air_time_text(*air, *now)));
        out
    }

    /// The line that shows the item at the instant `now_ms`, with times in the
    /// zone `tz`; fails when the item's air time or `now_ms` is unusable.
    pub fn to_human(&self, full_urls: bool, now_ms: i64, tz: &jiff::tz::TimeZone) -> (r: Result<String, CbcError>)
        ensures
            r is Ok <==> has_valid_time(*self) && instant_in_range(now_ms as int),
            r matches Err(e) ==> e == CbcError::BadTimestamp,
            r matches Ok(line) ==> exists|air: LocalDateTime, now: LocalDateTime|
                air.wf() && local_of(air, air_ms_of(*self)->0 as int) && local_of(now, now_ms as int)
                && line@ == human_text(
                    *self,
                    full_urls,
                    node_state(*self, now_ms as int),
                    air_time_text(air, now),
                ),
    {
        let air_ms = match parse_i64(self.published_at.as_str()) {
            Some(ms) => ms,
            None => return Err(CbcError::BadTimestamp),
        };
        let air = match local_time(air_ms, tz) {
            Some(t) => t,
            None => return Err(CbcError::BadTimestamp),
        };
        let now = match local_time(now_ms, tz) {
            Some(t) => t,
            None => return Err(CbcError::BadTimestamp),
        };
        let state = classify(self.flag, air_ms, Some(self.media.duration), now_ms);
        let line = self.render(full_urls, state, &air, &now);
        Ok(line)
    }
}

/// The item appears in a listing: a playable video with a usable air time.
pub open spec fn is_listed(n: Node) -> bool {
    is_playable_node(n) && has_valid_time(n)
}

/// The items of `nodes` that a listing shows, in order.
pub open spec fn listed_nodes(nodes: Seq<Node>) -> Seq<Node> {
    nodes.filter(|n: Node| is_listed(n))
}

/// `line` shows `n` at `now_ms`, with its air time and now in local time.
pub open spec fn shows(line: Seq<char>, n: Node, full_urls: bool, now_ms: int) -> bool {
    exists|air: LocalDateTime, now: LocalDateTime|
        air.wf() && local_of(air, air_ms_of(n)->0 as int) && local_of(now, now_ms) && line == human_text(n, full_urls, node_state(n, now_ms), air_time_text(air, now))
}

impl GqlResponse {
    /// One line per playable item with a usable air time, in the order of the
    /// response; other items are skipped. Nothing is listed when `now_ms`
    /// itself is out of range.
    pub fn listing(&self, full_urls: bool, now_ms: i64, tz: &jiff::tz::TimeZone) -> (r: Vec<String>)
        ensures
            !instant_in_range(now_ms as int) ==> r.len() == 0,
            instant_in_range(now_ms as int) ==> r.len() == listed_nodes(self.data.all_content_items.nodes@).len(),
            forall|k: int| 0 <= k < r.len() ==> shows(
                (#[trigger] r@[k])@,
                listed_nodes(self.data.all_content_items.nodes@)[k],
                full_urls,
                now_ms as int,
            ),
    {
        let nodes = &self.data.all_content_items.nodes;
        let mut out: Vec<String> = Vec::new();
        if local_time(now_ms, tz).is_none() {
            return out;
        }
        let mut i: usize = 0;
        while i < nodes.len()
            invariant
                i <= nodes.len(),
                instant_in_range(now_ms as int),
                out.len() == listed_nodes(nodes@.take(i as int)).len(),
                forall|k: int| 0 <= k < out.len() ==> shows(
                    (#[trigger] out@[k])@,
                    listed_nodes(nodes@.take(i as int))[k],
                    full_urls,
                    now_ms as int,
                ),
            decreases nodes.len() - i,
        {
            let ghost before = listed_nodes(nodes@.take(i as int));
            proof {
                assert(nodes@.take(i + 1).drop_last() =~= nodes@.take(i as int));
                reveal(Seq::filter);
            }
            let node = &nodes[i];
            if node.is_playable() {
                match node.to_human(full_urls, now_ms, tz) {
                    Ok(line) => {
                        out.push(line);
                        proof {
                            assert(listed_nodes(nodes@.take(i + 1)) == before.push(*node));
                        }
                    },
                    Err(_) => {
                        assert(listed_nodes(nodes@.take(i + 1)) == before);
                    },
                }
            } else {
                assert(listed_nodes(nodes@.take(i + 1)) == before);
            }
            i = i + 1;
        }
        assert(nodes@.take(nodes.len() as int) =~= nodes@);
        out
    }
}

impl Video {
    /// The next-stage URLs of the current clip: the key of its last
    /// `medianet` asset; ad-inserted (`platform-dai`) assets are not followed.
    pub fn get_stream_urls(&self) -> (r: StreamURLs)
        ensures
            r.dai is None,
            text_of(r.medianet) == last_key_of(self.current_clip.media.assets@, "medianet"@),
    {
        let medianet = match find_asset(&self.current_clip.media.assets, "medianet") {
            Ok(k) => Some(k),
            Err(_) => None,
        };
        StreamURLs { dai: None, medianet }
    }

    /// The URL of the stream descriptor: the key of the last `medianet` asset.
    pub fn medianet_url(&self) -> (r: Result<String, CbcError>)
        ensures
            match last_key_of(self.current_clip.media.assets@, "medianet"@) {
                Some(k) => r matches Ok(key) && key@ == k,
                None => r matches Err(CbcError::MissingAsset { wanted: w }) && w@ == "medianet"@,
            },
    {
        find_asset(&self.current_clip.media.assets, "medianet")
    }
}

impl Stream {
    /// The master playlist URL, when the backend reports the stream available
    /// (error code 0).
    pub fn master_url(&self) -> (r: Result<String, CbcError>)
        ensures
            self.error_code == 0 ==> (r matches Ok(u) && u@ == self.url@),
            self.error_code != 0 ==> (r matches Err(CbcError::StreamUnavailable { error_code: c })
                && c == self.error_code),
    {
        if self.error_code == 0 {
            Ok(self.url.clone())
        } else {
            Err(CbcError::StreamUnavailable { error_code: self.error_code })
        }
    }
}

} // verus!
