use cbc_stream::api::{Flag, Media, Node, StreamType};
use cbc_stream::clock::local_time;
use cbc_stream::error::CbcError;
use cbc_stream::number::parse_i64;
use cbc_stream::timeline::{classify, format_air_time, LocalDateTime, TimelineState};
use jiff::tz::{offset, TimeZone};

const NOW_10_00: i64 = 1748772000000; // 2025-06-01T10:00:00Z
const AT_09_00: i64 = 1748768400000; // 2025-06-01T09:00:00Z
const AT_12_00: i64 = 1748779200000; // 2025-06-01T12:00:00Z

fn node(flag: Flag, published_at: &str, duration: i64) -> Node {
    Node {
        id: 1,
        url: "https://www.cbc.ca/player/play/video/9.6452417".to_string(),
        title: "Curling".to_string(),
        flag,
        published_at: published_at.to_string(),
        updated_at: String::new(),
        node_type: "video".to_string(),
        media: Media { duration, has_captions: false, stream_type: StreamType::Live },
    }
}

fn at(year: i16, month: u8, day: u8, hour: u8, minute: u8) -> LocalDateTime {
    LocalDateTime { year, month, day, hour, minute }
}

#[test]
fn live_item_that_aired_has_started() {
    assert_eq!(classify(Flag::Live, AT_09_00, None, NOW_10_00), TimelineState::Started);
    assert_eq!(classify(Flag::Live, AT_09_00, Some(7200), NOW_10_00), TimelineState::Started);
}

#[test]
fn live_item_in_the_future_is_upcoming() {
    assert_eq!(classify(Flag::Live, AT_12_00, None, NOW_10_00), TimelineState::Upcoming);
}

#[test]
fn live_item_past_its_window_is_not_started() {
    assert_eq!(classify(Flag::Live, AT_09_00, Some(1800), NOW_10_00), TimelineState::Upcoming);
    assert_eq!(classify(Flag::Live, AT_09_00, Some(3600), NOW_10_00), TimelineState::Started);
}

#[test]
fn on_demand_item_is_a_replay() {
    assert_eq!(classify(Flag::Video, AT_12_00, None, NOW_10_00), TimelineState::Replay);
    assert_eq!(classify(Flag::Other, AT_09_00, None, NOW_10_00), TimelineState::Replay);
}

#[test]
fn same_local_day_shows_clock_only() {
    let air = at(2025, 6, 1, 9, 5);
    let now = at(2025, 6, 1, 10, 0);
    assert_eq!(format_air_time(&air, &now), "09:05");
}

#[test]
fn other_local_day_shows_month_and_day() {
    let air = at(2025, 5, 31, 23, 50);
    let now = at(2025, 6, 1, 0, 10);
    assert_eq!(format_air_time(&air, &now), "May 31 23:50");
}

#[test]
fn local_date_decides_not_utc_date() {
    // 23:50 and 00:10 at UTC-4 are 03:50 and 04:10 on the same UTC day.
    let tz = TimeZone::fixed(offset(-4));
    let air = local_time(1748749800000, &tz).unwrap();
    let now = local_time(1748751000000, &tz).unwrap();
    assert_eq!(air, at(2025, 5, 31, 23, 50));
    assert_eq!(format_air_time(&air, &now), "May 31 23:50");
}

#[test]
fn instants_outside_jiff_range_are_rejected() {
    assert!(local_time(i64::MAX, &TimeZone::UTC).is_none());
    assert!(local_time(253402207200999, &TimeZone::UTC).is_some());
    assert!(local_time(253402207201000, &TimeZone::UTC).is_none());
    assert!(local_time(-377705023201000, &TimeZone::UTC).is_some());
    assert!(local_time(-377705023201001, &TimeZone::UTC).is_none());
}

#[test]
fn decimal_parsing() {
    assert_eq!(parse_i64("1748772000000"), Some(1748772000000));
    assert_eq!(parse_i64("-42"), Some(-42));
    assert_eq!(parse_i64("+7"), Some(7));
    assert_eq!(parse_i64("-9223372036854775808"), Some(i64::MIN));
    assert_eq!(parse_i64("9223372036854775808"), None);
    assert_eq!(parse_i64(""), None);
    assert_eq!(parse_i64("-"), None);
    assert_eq!(parse_i64("12x"), None);
}

#[test]
fn human_line_for_started_item() {
    let n = node(Flag::Live, "1748768400000", 7200);
    let line = n.to_human(false, NOW_10_00, &TimeZone::UTC).unwrap();
    assert_eq!(line, "9.6452417 - (STARTED  @ 09:00) Curling");
    let full = n.to_human(true, NOW_10_00, &TimeZone::UTC).unwrap();
    assert_eq!(full, "https://www.cbc.ca/player/play/video/9.6452417 - (STARTED  @ 09:00) Curling");
}

#[test]
fn human_line_for_upcoming_and_replay_items() {
    let up = node(Flag::Live, "1748779200000", 7200);
    assert_eq!(
        up.to_human(false, NOW_10_00, &TimeZone::UTC).unwrap(),
        "9.6452417 - (UPCOMING @ 12:00) Curling"
    );
    let replay = node(Flag::Video, "1748735400000", 60);
    assert_eq!(
        replay.to_human(false, NOW_10_00, &TimeZone::UTC).unwrap(),
        "9.6452417 - (May 31 23:50) Curling"
    );
}

#[test]
fn bad_air_time_is_reported() {
    let n = node(Flag::Live, "yesterday", 60);
    assert!(matches!(n.to_human(false, NOW_10_00, &TimeZone::UTC), Err(CbcError::BadTimestamp)));
    assert!(matches!(n.is_live(NOW_10_00), Err(CbcError::BadTimestamp)));
    let ok = node(Flag::Live, "1748768400000", 7200);
    assert_eq!(ok.is_live(NOW_10_00).unwrap(), true);
    assert_eq!(ok.date(&TimeZone::UTC).unwrap(), at(2025, 6, 1, 9, 0));
    assert_eq!(ok.timestamp().unwrap(), AT_09_00);
    assert!(matches!(node(Flag::Live, "-9223372036854775808", 0).timestamp(), Err(CbcError::BadTimestamp)));
}

#[test]
fn proper_id_follows_last_separator() {
    let mut n = node(Flag::Live, "0", 0);
    assert_eq!(n.proper_id(), "9.6452417");
    n.url = "https://www.cbc.ca/sports/event-name-30045".to_string();
    assert_eq!(n.proper_id(), "30045");
    n.url = "https://x.ca/a/event-1?q=z".to_string();
    assert_eq!(n.proper_id(), "1");
}
