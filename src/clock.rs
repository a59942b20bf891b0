//! Instants and time zones, handled by jiff.

use vstd::prelude::*;
use crate::timeline::LocalDateTime;

verus! {

#[verifier::external_type_specification]
#[verifier::external_body]
pub struct ExTimestamp(jiff::Timestamp);

#[verifier::external_type_specification]
#[verifier::external_body]
pub struct ExTimeZone(jiff::tz::TimeZone);

#[verifier::external_type_specification]
#[verifier::external_body]
pub struct ExJiffError(jiff::Error);

/// The earliest epoch-millisecond count that jiff represents (`Timestamp::MIN`).
pub const MIN_INSTANT_MS: i64 = -377_705_023_201_000;

/// The latest epoch-millisecond count that jiff represents (`Timestamp::MAX`).
pub const MAX_INSTANT_MS: i64 = 253_402_207_200_999;

/// `ms` names an instant that jiff can represent.
pub open spec fn instant_in_range(ms: int) -> bool {
    MIN_INSTANT_MS <= ms <= MAX_INSTANT_MS
}

/// Relies on jiff's `Timestamp::from_millisecond`, which fails exactly when the
/// count lies outside `Timestamp::MIN..=Timestamp::MAX`.
#[verifier::external_body]
pub(crate) fn timestamp_from_ms(ms: i64) -> (r: Result<jiff::Timestamp, jiff::Error>)
    ensures
        r is Ok <==> instant_in_range(ms as int),
{
    jiff::Timestamp::from_millisecond(ms)
}

/// The largest time zone offset, in seconds, that jiff represents (25:59:59).
pub const MAX_OFFSET_SECS: i64 = 93_599;

/// The civil date and time, to the minute, `secs` seconds after
/// 1970-01-01T00:00:00 in the proleptic Gregorian calendar.
pub open spec fn civil_of(secs: int) -> LocalDateTime {
    let days = secs / 86400;
    let sod = secs % 86400;
    let z = days + 719468;
    let era = z / 146097;
    let doe = z - era * 146097;
    let yoe = (doe - doe / 1460 + doe / 36524 - doe / 146096) / 365;
    let doy = doe - (365 * yoe + yoe / 4 - yoe / 100);
    let mp = (5 * doy + 2) / 153;
    let d = doy - (153 * mp + 2) / 5 + 1;
    let m = if mp < 10 { mp + 3 } else { mp - 9 };
    let y = yoe + era * 400 + if m <= 2 { 1int } else { 0int };
    LocalDateTime {
        year: y as i16,
        month: m as u8,
        day: d as u8,
        hour: (sod / 3600) as u8,
        minute: (sod % 3600 / 60) as u8,
    }
}

/// `t` is the civil time of the instant `ms` (epoch milliseconds) at some
/// offset that jiff can represent.
pub open spec fn local_of(t: LocalDateTime, ms: int) -> bool {
    exists|off: int| -MAX_OFFSET_SECS <= off <= MAX_OFFSET_SECS && t == #[trigger] civil_of(ms / 1000 + off)
}

/// Relies on jiff's `Timestamp::from_millisecond` and `TimeZone::to_datetime`:
/// the civil date and time of the instant in the zone, which is the instant
/// shifted by the zone's offset there (`Offset::to_datetime`); month, day,
/// hour and minute stay in their calendar ranges.
#[verifier::external_body]
fn civil_time(tz: &jiff::tz::TimeZone, ms: i64) -> (r: Option<LocalDateTime>)
    ensures
        r is Some <==> instant_in_range(ms as int),
        r matches Some(t) ==> t.wf() && local_of(t, ms as int),
{
    let dt = tz.to_datetime(jiff::Timestamp::from_millisecond(ms).ok()?);
    Some(LocalDateTime {
        year: dt.year(),
        month: dt.month() as u8,
        day: dt.day() as u8,
        hour: dt.hour() as u8,
        minute: dt.minute() as u8,
    })
}

/// The local date and time of the instant `ms` in the zone `tz`; `None` when
/// jiff cannot represent the instant.
pub fn local_time(ms: i64, tz: &jiff::tz::TimeZone) -> (r: Option<LocalDateTime>)
    ensures
        r is Some <==> instant_in_range(ms as int),
        r matches Some(t) ==> t.wf() && local_of(t, ms as int),
{
    civil_time(tz, ms)
}

} // verus!
