//! Classification of content items into a live / upcoming / replay timeline,
//! and the locale-fixed rendering of their air time.

use vstd::prelude::*;
use crate::api::Flag;

verus! {

/// A civil date and time in the caller's local time zone, to the minute.
#[derive(Clone, Copy, Debug, PartialEq, Eq, Structural)]
pub struct LocalDateTime {
    pub year: i16,
    pub month: u8,
    pub day: u8,
    pub hour: u8,
    pub minute: u8,
}

impl LocalDateTime {
    pub open spec fn wf(self) -> bool {
        1 <= self.month <= 12 && 1 <= self.day <= 31 && self.hour <= 23 && self.minute <= 59
    }
}

/// Where an item stands relative to now.
#[derive(Clone, Copy, Debug, PartialEq, Eq, Structural)]
pub enum TimelineState {
    /// A live item whose air time has come and whose airing window is not over.
    Started,
    /// A live item that has not started, or whose airing window has passed.
    Upcoming,
    /// An item that is not live.
    Replay,
}

/// The state of an item of category `flag` that airs at `air_ms` (epoch
/// milliseconds) for `duration_s` seconds, if known, seen at `now_ms`.
pub open spec fn state_at(flag: Flag, air_ms: int, duration_s: Option<int>, now_ms: int) -> TimelineState {
    match flag {
        Flag::Live => {
            let within = match duration_s {
                Some(d) => now_ms <= air_ms + d * 1000,
                None => true,
            };
            if air_ms <= now_ms && within {
                TimelineState::Started
            } else {
                TimelineState::Upcoming
            }
        },
        Flag::Video | Flag::Other => TimelineState::Replay,
    }
}

/// An optional duration as a mathematical integer.
pub open spec fn secs(d: Option<i64>) -> Option<int> {
    match d {
        Some(x) => Some(x as int),
        None => None,
    }
}

/// Classifies an item of category `flag` airing at `air_ms` for `duration_s`
/// seconds (when known) against the instant `now_ms`.
pub fn classify(flag: Flag, air_ms: i64, duration_s: Option<i64>, now_ms: i64) -> (r: TimelineState)
    ensures
        r == state_at(flag, air_ms as int, secs(duration_s), now_ms as int),
{
    match flag {
        Flag::Live => {
            let within = match duration_s {
                Some(d) => (now_ms as i128) <= (air_ms as i128) + (d as i128) * 1000,
                None => true,
            };
            if air_ms <= now_ms && within {
                TimelineState::Started
            } else {
                TimelineState::Upcoming
            }
        },
        Flag::Video | Flag::Other => TimelineState::Replay,
    }
}

/// The decimal digit `d` as text.
pub open spec fn digit_text(d: int) -> Seq<char> {
    if d == 0 { "0"@ } else if d == 1 { "1"@ } else if d == 2 { "2"@ } else if d == 3 { "3"@ }
    else if d == 4 { "4"@ } else if d == 5 { "5"@ } else if d == 6 { "6"@ } else if d == 7 { "7"@ }
    else if d == 8 { "8"@ } else { "9"@ }
}

/// `n` as two zero-padded decimal digits.
pub open spec fn two_digits(n: int) -> Seq<char> {
    digit_text(n / 10) + digit_text(n % 10)
}

/// The English abbreviation of month `m`.
pub open spec fn month_abbrev(m: int) -> Seq<char> {
    if m == 1 { "Jan"@ } else if m == 2 { "Feb"@ } else if m == 3 { "Mar"@ } else if m == 4 { "Apr"@ }
    else if m == 5 { "May"@ } else if m == 6 { "Jun"@ } else if m == 7 { "Jul"@ } else if m == 8 { "Aug"@ }
    else if m == 9 { "Sep"@ } else if m == 10 { "Oct"@ } else if m == 11 { "Nov"@ } else { "Dec"@ }
}

/// Both times fall on the same local calendar date.
pub open spec fn same_local_day(a: LocalDateTime, b: LocalDateTime) -> bool {
    a.year == b.year && a.month == b.month && a.day == b.day
}

/// `HH:MM`.
pub open spec fn clock_text(t: LocalDateTime) -> Seq<char> {
    two_digits(t.hour as int) + ":"@ + two_digits(t.minute as int)
}

/// `MMM DD HH:MM`.
pub open spec fn dated_text(t: LocalDateTime) -> Seq<char> {
    month_abbrev(t.month as int) + " "@ + two_digits(t.day as int) + " "@ + clock_text(t)
}

/// The air time as shown beside now: the clock alone on the same local date,
/// the month and day too otherwise.
pub open spec fn air_time_text(air: LocalDateTime, now: LocalDateTime) -> Seq<char> {
    if same_local_day(air, now) {
        clock_text(air)
    } else {
        dated_text(air)
    }
}

fn digit_str(d: u8) -> (r: &'static str)
    requires
        d < 10,
    ensures
        r@ == digit_text(d as int),
{
    match d {
        0 => "0", 1 => "1", 2 => "2", 3 => "3", 4 => "4",
        5 => "5", 6 => "6", 7 => "7", 8 => "8", _ => "9",
    }
}

fn push_two_digits(out: &mut String, n: u8)
    requires
        n < 100,
    ensures
        final(out)@ == old(out)@ + two_digits(n as int),
{
    out.append(digit_str(n / 10));
    out.append(digit_str(n % 10));
}

fn month_str(m: u8) -> (r: &'static str)
    ensures
        r@ == month_abbrev(m as int),
{
    match m {
        1 => "Jan", 2 => "Feb", 3 => "Mar", 4 => "Apr", 5 => "May", 6 => "Jun",
        7 => "Jul", 8 => "Aug", 9 => "Sep", 10 => "Oct", 11 => "Nov", _ => "Dec",
    }
}

/// Renders the air time: `HH:MM` when it falls on now's local date,
/// `MMM DD HH:MM` otherwise.
pub fn format_air_time(air: &LocalDateTime, now: &LocalDateTime) -> (r: String)
    requires
        air.wf(),
    ensures
        r@ == air_time_text(*air, *now),
{
    let mut out = String::new();
    let same = air.year == now.year && air.month == now.month && air.day == now.day;
    if !same {
        out.append(month_str(air.month));
        out.append(" ");
        push_two_digits(&mut out, air.day);
        out.append(" ");
    }
    push_two_digits(&mut out, air.hour);
    out.append(":");
    push_two_digits(&mut out, air.minute);
    assert(out@ =~= air_time_text(*air, *now));
    out
}

} // verus!
