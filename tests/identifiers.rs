use cbc_stream::error::CbcError;
use cbc_stream::ident::{id_from_segment, is_identifier, parse_cbc_id, probably_cbc};
use cbc_stream::proxy::{proxy_url_streamlink, proxy_url_ureq};

#[test]
fn numeric_id_is_returned_unchanged() {
    assert_eq!(parse_cbc_id("30045").unwrap(), "30045");
    assert_eq!(parse_cbc_id("0").unwrap(), "0");
    assert_eq!(probably_cbc("0012").unwrap(), "0012");
}

#[test]
fn dotted_id_is_returned_unchanged() {
    assert_eq!(parse_cbc_id("9.6452417").unwrap(), "9.6452417");
}

#[test]
fn slug_url_resolves_to_trailing_id() {
    let a = parse_cbc_id("https://www.cbc.ca/player/play/video/event-name-30045").unwrap();
    assert_eq!(a, "30045");
    let b = parse_cbc_id(
        "https://www.cbc.ca/olympics/curling-norway-vs-canada-mixed-doubles-round-robin-30045",
    )
    .unwrap();
    assert_eq!(b, "30045");
}

#[test]
fn every_url_generation_resolves() {
    assert_eq!(parse_cbc_id("https://www.cbc.ca/player/play/30045").unwrap(), "30045");
    assert_eq!(
        parse_cbc_id("https://www.cbc.ca/player/play/video/9.6452417").unwrap(),
        "9.6452417"
    );
    assert_eq!(
        parse_cbc_id("https://www.cbc.ca/player/play/video/event-name-30045?autoplay=1#t").unwrap(),
        "30045"
    );
}

#[test]
fn invalid_identifiers_are_rejected() {
    assert!(matches!(parse_cbc_id("hello"), Err(CbcError::InvalidIdentifier)));
    assert!(matches!(parse_cbc_id(""), Err(CbcError::InvalidIdentifier)));
    assert!(matches!(parse_cbc_id("1.2.3"), Err(CbcError::InvalidIdentifier)));
    assert!(matches!(parse_cbc_id("https://www.cbc.ca/"), Err(CbcError::InvalidIdentifier)));
    assert!(matches!(
        parse_cbc_id("https://www.cbc.ca/player/play/video/event-name"),
        Err(CbcError::InvalidIdentifier)
    ));
    assert_eq!(probably_cbc("not an id").unwrap_err(), "invalid url");
}

#[test]
fn identifier_shapes() {
    assert!(is_identifier("123"));
    assert!(is_identifier("1.23"));
    assert!(!is_identifier(""));
    assert!(!is_identifier(".5"));
    assert!(!is_identifier("5."));
    assert!(!is_identifier("12a"));
}

#[test]
fn trailing_id_of_path_segment() {
    assert_eq!(id_from_segment("b-c-77").unwrap(), "77");
    assert_eq!(id_from_segment("9.6452417").unwrap(), "9.6452417");
    assert!(id_from_segment("b-c").is_none());
}

#[test]
fn query_and_fragment_do_not_reach_the_id() {
    assert_eq!(parse_cbc_id("https://x.ca/a/b-c-77?q=1-2").unwrap(), "77");
    assert!(matches!(parse_cbc_id("mailto:a-12"), Err(CbcError::InvalidIdentifier)));
}

#[test]
fn transport_proxy_rewrites() {
    assert_eq!(proxy_url_ureq("socks5h://1.2.3.4:1080"), "socks5://1.2.3.4:1080");
    assert_eq!(proxy_url_ureq("socks4://1.2.3.4:1080"), "socks4a://1.2.3.4:1080");
    assert_eq!(proxy_url_ureq("1.2.3.4:1080"), "socks5://1.2.3.4:1080");
    assert_eq!(proxy_url_ureq("http://1.2.3.4:8080"), "http://1.2.3.4:8080");
}

#[test]
fn player_proxy_rewrites() {
    assert_eq!(proxy_url_streamlink("1.2.3.4:1080"), "socks5h://1.2.3.4:1080");
    assert_eq!(proxy_url_streamlink("socks5://1.2.3.4:1080"), "socks5h://1.2.3.4:1080");
    assert_eq!(proxy_url_streamlink("socks4://1.2.3.4:1080"), "socks4a://1.2.3.4:1080");
    assert_eq!(proxy_url_streamlink("socks5h://1.2.3.4:1080"), "socks5h://1.2.3.4:1080");
}

#[test]
fn proxy_rewrites_are_idempotent() {
    for spec in ["socks5h://h:1", "socks4://h:1", "h:1", "socks5://h:1", "socks4a://h:1"] {
        let t = proxy_url_ureq(spec);
        assert_eq!(proxy_url_ureq(&t), t);
        let p = proxy_url_streamlink(spec);
        assert_eq!(proxy_url_streamlink(&p), p);
    }
}
