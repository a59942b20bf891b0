use cbc_stream::api::{
    AllContentItems, Asset, CurrentClip, CurrentClipMedia, Data, Flag, GqlResponse, Media, Node,
    Stream, StreamType, Video,
};
use cbc_stream::error::{player_outcome, CbcError, ErrorKind};
use cbc_stream::page::extract_initial_state;
use cbc_stream::player::{no_run_lines, player_args, watch_page_url, USER_AGENT};
use cbc_stream::smil::video_source;
use jiff::tz::TimeZone;

fn asset(asset_type: &str, key: &str) -> Asset {
    Asset { key: key.to_string(), asset_type: asset_type.to_string() }
}

fn video(assets: Vec<Asset>) -> Video {
    Video {
        current_clip: CurrentClip {
            source_id: String::new(),
            source: String::new(),
            title: "Final".to_string(),
            published_at: String::new(),
            media: CurrentClipMedia { id: 1, assets, duration: 60 },
            updated_at: String::new(),
            description: String::new(),
        },
    }
}

fn listed(node_type: &str, published_at: &str, url: &str) -> Node {
    Node {
        id: 1,
        url: url.to_string(),
        title: "T".to_string(),
        flag: Flag::Video,
        published_at: published_at.to_string(),
        updated_at: String::new(),
        node_type: node_type.to_string(),
        media: Media { duration: 0, has_captions: true, stream_type: StreamType::OnDemand },
    }
}

#[test]
fn no_run_prints_the_resolved_url() {
    let page = "<html><script>window.__INITIAL_STATE__ = {\"video\":{}};</script></html>";
    assert_eq!(extract_initial_state(page).unwrap(), "{\"video\":{}}");
    let v = video(vec![
        asset("platform-dai", "https://ads/x"),
        asset("medianet", "https://cdn/stream.json"),
    ]);
    assert_eq!(v.medianet_url().unwrap(), "https://cdn/stream.json");
    let stream = Stream { url: "https://cdn/master.m3u8".to_string(), error_code: 0, params: vec![] };
    let url = stream.master_url().unwrap();
    let referer = watch_page_url("9.6452417");
    let lines = no_run_lines(&url, &referer);
    assert_eq!(lines[0], format!("User-Agent: {}", USER_AGENT));
    assert_eq!(lines[1], "Referer: https://www.cbc.ca/player/play/video/9.6452417");
    assert_eq!(lines[2], "URL: https://cdn/master.m3u8");
}

#[test]
fn no_run_prints_the_smil_video_url() {
    let assets = vec![
        asset("OtherLoader", "https://manifest/other"),
        asset("PlatformLoader", "https://manifest/item.smil"),
    ];
    let manifest = cbc_stream::api::find_asset(&assets, "PlatformLoader").unwrap();
    assert_eq!(manifest, "https://manifest/item.smil");
    let smil = "<smil><head/><body><seq>\n<video src=\"https://cdn/master.m3u8\" title=\"x\"/>\n</seq></body></smil>";
    let url = video_source(smil).unwrap();
    let lines = no_run_lines(&url, "https://www.cbc.ca/player/play/video/30045");
    assert_eq!(lines.len(), 3);
    assert_eq!(lines[2], "URL: https://cdn/master.m3u8");
}

#[test]
fn smil_without_video_source_is_reported() {
    assert!(matches!(video_source("<smil><seq></seq></smil>"), Err(CbcError::MissingVideoSource)));
    assert!(matches!(
        video_source("<seq><video/><img src=\"x\"/></seq>"),
        Err(CbcError::MissingVideoSource)
    ));
    assert!(matches!(
        video_source("<video src=\"https://a\"/><seq></seq>"),
        Err(CbcError::MissingVideoSource)
    ));
    assert_eq!(video_source("<seq><video id=\"v\" src=\"https://b/m.m3u8\"/></seq>").unwrap(), "https://b/m.m3u8");
    assert_eq!(
        video_source("<seq><video data-src=\"x\" src=\"https://c/m.m3u8\"/></seq>").unwrap(),
        "https://c/m.m3u8"
    );
    assert_eq!(
        video_source("<seq><videos src=\"no\"/><video src='https://e/m.m3u8'/></seq>").unwrap(),
        "https://e/m.m3u8"
    );
    assert!(matches!(
        video_source("<seq></seq><video src=\"https://d/m.m3u8\"/>"),
        Err(CbcError::MissingVideoSource)
    ));
}

#[test]
fn missing_loader_is_named_in_the_error() {
    let assets = vec![asset("medianet", "https://cdn/a"), asset("platform-dai", "https://ads/b")];
    match cbc_stream::api::find_asset(&assets, "PlatformLoader") {
        Err(e) => {
            assert_eq!(e.kind(), ErrorKind::Schema);
            match e {
                CbcError::MissingAsset { wanted } => assert_eq!(wanted, "PlatformLoader"),
                other => panic!("unexpected error {:?}", other),
            }
        }
        Ok(k) => panic!("unexpected key {}", k),
    }
}

#[test]
fn last_matching_asset_wins() {
    let v = video(vec![
        asset("medianet", "https://cdn/first"),
        asset("platform-dai", "https://ads/x"),
        asset("medianet", "https://cdn/second"),
    ]);
    let urls = v.get_stream_urls();
    assert_eq!(urls.medianet.as_deref(), Some("https://cdn/second"));
    assert!(urls.dai.is_none());
    assert!(video(vec![]).get_stream_urls().medianet.is_none());
    assert!(matches!(video(vec![]).medianet_url(), Err(CbcError::MissingAsset { .. })));
}

#[test]
fn page_without_state_is_reported() {
    assert!(matches!(extract_initial_state("<html></html>"), Err(CbcError::MissingInitialState)));
    assert!(matches!(
        extract_initial_state("window.__INITIAL_STATE__ = {} no end"),
        Err(CbcError::MissingInitialState)
    ));
}

#[test]
fn unavailable_stream_is_an_upstream_failure() {
    let s = Stream { url: "https://cdn/m.m3u8".to_string(), error_code: 1, params: vec![] };
    let e = s.master_url().unwrap_err();
    assert!(matches!(e, CbcError::StreamUnavailable { error_code: 1 }));
    assert_eq!(e.kind(), ErrorKind::Upstream);
}

#[test]
fn player_arguments_with_and_without_proxy() {
    let referer = watch_page_url("9.6452417");
    assert_eq!(referer, "https://www.cbc.ca/player/play/video/9.6452417");
    let plain = player_args("info", &referer, None, "https://cdn/m.m3u8", "best");
    assert_eq!(
        plain,
        vec![
            "--loglevel".to_string(),
            "info".to_string(),
            "--http-header".to_string(),
            format!("User-Agent={}", USER_AGENT),
            "--http-header".to_string(),
            format!("Referer={}", referer),
            "https://cdn/m.m3u8".to_string(),
            "best".to_string(),
        ]
    );
    let proxied = player_args("debug", &referer, Some("1.2.3.4:1080"), "u", "720p");
    assert_eq!(proxied.len(), 10);
    assert_eq!(proxied[6], "--http-proxy");
    assert_eq!(proxied[7], "socks5h://1.2.3.4:1080");
    assert_eq!(proxied[9], "720p");
}

#[test]
fn player_exit_status() {
    assert!(player_outcome(Some(0)).is_ok());
    assert!(matches!(player_outcome(Some(2)), Err(CbcError::PlayerExit { code: Some(2) })));
    let killed = player_outcome(None).unwrap_err();
    assert_eq!(killed.kind(), ErrorKind::PlayerProcess);
}

#[test]
fn listing_skips_unplayable_and_undated_items() {
    let resp = GqlResponse {
        data: Data {
            all_content_items: AllContentItems {
                nodes: vec![
                    listed("video", "1748735400000", "https://www.cbc.ca/player/play/video/1.1"),
                    listed("section", "1748735400000", "https://www.cbc.ca/x/2.2"),
                    listed("video", "soon", "https://www.cbc.ca/player/play/video/3.3"),
                    listed("video", "1748768400000", "https://www.cbc.ca/player/play/video/4.4"),
                ],
            },
        },
    };
    let lines = resp.listing(false, 1748772000000, &TimeZone::UTC);
    assert_eq!(lines, vec!["1.1 - (May 31 23:50) T".to_string(), "4.4 - (09:00) T".to_string()]);
    assert!(resp.listing(false, i64::MAX, &TimeZone::UTC).is_empty());
}
