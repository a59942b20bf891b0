use cbc_stream::error::{CbcError, ErrorKind};
use cbc_stream::m3u8_lines::has_unsafe_lines;
use cbc_stream::playlist::{
    best_variant, get_best_stream, parse_master_playlist, select_best, VariantStream,
};
use cbc_stream::urls::{join_to_directory, to_absolute};

const MASTER: &str = "#EXTM3U\n\
#EXT-X-STREAM-INF:BANDWIDTH=800000\n\
low/index.m3u8\n\
#EXT-X-STREAM-INF:BANDWIDTH=3000000\n\
high/index.m3u8\n\
#EXT-X-STREAM-INF:BANDWIDTH=1200000\n\
mid/index.m3u8\n";

fn variant(bandwidth: u64, uri: &str) -> VariantStream {
    VariantStream { bandwidth, uri: uri.to_string() }
}

#[test]
fn highest_bandwidth_variant_is_chosen() {
    assert_eq!(parse_master_playlist(MASTER).unwrap(), "high/index.m3u8");
}

#[test]
fn empty_master_playlist_has_no_variants() {
    let r = parse_master_playlist("#EXTM3U\n");
    assert!(matches!(r, Err(CbcError::NoVariants)));
    assert_eq!(r.unwrap_err().kind(), ErrorKind::NoVariants);
    assert!(matches!(select_best(&vec![]), Err(CbcError::NoVariants)));
}

#[test]
fn malformed_master_playlist_is_reported() {
    assert!(matches!(parse_master_playlist("not a playlist"), Err(CbcError::MalformedPlaylist)));
}

#[test]
fn ties_choose_the_last_maximum() {
    let vs = vec![variant(5, "a"), variant(9, "b"), variant(9, "c"), variant(1, "d")];
    assert_eq!(best_variant(&vs), Some(2));
    assert_eq!(select_best(&vs).unwrap(), "c");
    assert_eq!(vs[2].uri(), "c");
}

#[test]
fn best_stream_is_made_absolute() {
    let url = "https://cdn.example.com/live/event/master.m3u8?token=abc";
    assert_eq!(
        get_best_stream(url, MASTER).unwrap(),
        "https://cdn.example.com/live/event/high/index.m3u8"
    );
}

#[test]
fn absolute_variant_is_kept() {
    let r = to_absolute("https://a.example/x/master.m3u8", "https://b.example/v.m3u8").unwrap();
    assert_eq!(r, "https://b.example/v.m3u8");
    assert!(matches!(to_absolute("not a url", "v.m3u8"), Err(CbcError::InvalidUrl)));
}

#[test]
fn variant_joins_its_directory() {
    assert_eq!(join_to_directory("https://h.example/a", "v.m3u8"), "https://h.example/a/v.m3u8");
}

#[test]
fn master_url_without_directory_is_refused() {
    assert!(matches!(to_absolute("mailto:a@b", "v.m3u8"), Err(CbcError::InvalidUrl)));
    assert!(matches!(get_best_stream("data:text/plain,x", MASTER), Err(CbcError::InvalidUrl)));
}

#[test]
fn media_segment_tags_make_a_malformed_master() {
    assert!(matches!(
        parse_master_playlist("#EXTM3U\n#EXTINF:-1,\nseg.ts\n"),
        Err(CbcError::MalformedPlaylist)
    ));
    assert!(matches!(
        parse_master_playlist("#EXTM3U\n#EXT-X-DATERANGE:ID=\"a\",DURATION=-1\n"),
        Err(CbcError::MalformedPlaylist)
    ));
}

#[test]
fn master_url_is_normalised_before_resolving() {
    assert_eq!(
        to_absolute("https://h.example/a/../b/m.m3u8", "v.m3u8").unwrap(),
        "https://h.example/b/v.m3u8"
    );
}

#[test]
fn tag_text_outside_tag_lines_is_accepted() {
    let text = "#EXTM3U\n# see #EXTINF: and #EXT-X-DATERANGE: below\n\
#EXT-X-STREAM-INF:BANDWIDTH=800000\n\
low/index.m3u8\n\
#EXT-X-STREAM-INF:BANDWIDTH=3000000\n\
high/#EXTINF:x.m3u8\n";
    assert!(!has_unsafe_lines(text));
    assert_eq!(parse_master_playlist(text).unwrap(), "high/#EXTINF:x.m3u8");
}

#[test]
fn tag_lines_the_parser_cannot_survive_are_refused() {
    let lone = "#EXTM3U\n#EXT-X-STREAM-INF:BANDWIDTH=1,AUDIO=\"\nx.m3u8\n";
    assert!(has_unsafe_lines(lone));
    assert!(matches!(parse_master_playlist(lone), Err(CbcError::MalformedPlaylist)));
    let overflow = "#EXTM3U\n#EXT-X-BYTERANGE:18446744073709551615@1\n";
    assert!(matches!(parse_master_playlist(overflow), Err(CbcError::MalformedPlaylist)));
    let map = "#EXTM3U\n#EXT-X-MAP:URI=\"a\",BYTERANGE=\"18446744073709551615@1\"\n";
    assert!(matches!(parse_master_playlist(map), Err(CbcError::MalformedPlaylist)));
    let padded = "#EXTM3U\n  #EXTINF:-1,\t\n";
    assert!(matches!(parse_master_playlist(padded), Err(CbcError::MalformedPlaylist)));
    assert!(has_unsafe_lines("#EXT-X-MEDIA:TYPE=AUDIO,NAME=  \"  \r"));
    assert!(!has_unsafe_lines("#EXT-X-MEDIA:TYPE=AUDIO,NAME=\"a\""));
}
