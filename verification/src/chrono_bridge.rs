//! The calls into `chrono` that the date/time logic makes. Each function
//! here is trusted: its body is not verified, and its contract states what
//! chrono's source shows of the call. Values cross this boundary as plain
//! integers and strings: an instant is its unix time in whole seconds, a
//! zone offset its seconds east of UTC, and a naive (zone-less) date/time
//! the unix time it would have if it were read as UTC.

use chrono::{DateTime, Local, NaiveDate, NaiveDateTime, Offset, TimeZone, Utc};
use vstd::prelude::*;

verus! {

/// The first second that chrono can represent: -262143-01-01 00:00:00 UTC.
pub open spec fn chrono_min_timestamp() -> int {
    -8_334_601_228_800
}

/// The last second that chrono can represent: 262142-12-31 23:59:59 UTC.
pub open spec fn chrono_max_timestamp() -> int {
    8_210_266_876_799
}

/// Whether chrono can represent the instant `unix_seconds` seconds after
/// the unix epoch (every `DateTime` and `NaiveDateTime` lies in this range).
pub open spec fn in_chrono_range(unix_seconds: int) -> bool {
    chrono_min_timestamp() <= unix_seconds <= chrono_max_timestamp()
}

/// Whether `offset_seconds` is an offset that `FixedOffset::east_opt`
/// accepts: strictly less than one day either way.
pub open spec fn valid_offset(offset_seconds: int) -> bool {
    -86_400 < offset_seconds < 86_400
}

/// The format strings that this library hands to chrono's `format`. Each is
/// made of items chrono knows, so rendering with it cannot fail.
pub open spec fn renderable_format(format: Seq<char>) -> bool {
    ||| format == "%Y/%m/%d %H:%M:%S"@
    ||| format == "%Y%m%d%H%M%S"@
    ||| format == "%Y-%m-%dT%H:%M:%S"@
}

/// The text that chrono's `format(format)` renders for the instant
/// `unix_seconds` seen at the fixed offset `offset_seconds` east of UTC.
pub uninterp spec fn chrono_format_at_offset(unix_seconds: i64, offset_seconds: i32, format: Seq<char>) -> Seq<char>;

/// The unix time of what `DateTime::parse_from_str(input, format)` reads
/// (a date/time that carries its own offset), or `None` where it fails.
pub uninterp spec fn chrono_parse_with_offset(input: Seq<char>, format: Seq<char>) -> Option<i64>;

/// The unix time of what `DateTime::parse_from_rfc3339(input)` reads, or
/// `None` where it fails.
pub uninterp spec fn chrono_parse_rfc3339(input: Seq<char>) -> Option<i64>;

/// What `NaiveDateTime::parse_from_str(input, format)` reads, as the unix
/// time it would have if read as UTC, or `None` where it fails.
pub uninterp spec fn chrono_parse_naive_datetime(input: Seq<char>, format: Seq<char>) -> Option<i64>;

/// What `NaiveDate::parse_from_str(input, format)` reads, taken at
/// 00:00:00 (`and_hms_opt(0, 0, 0)`), as the unix time it would have if read
/// as UTC, or `None` where it fails.
pub uninterp spec fn chrono_parse_naive_date(input: Seq<char>, format: Seq<char>) -> Option<i64>;

/// `Utc::now().timestamp()`: the current unix time in whole seconds. It
/// depends on the clock, so the contract says only that it lies in chrono's
/// range, as every `DateTime` does, and that it is not before the epoch:
/// chrono takes it from `SystemTime::now().duration_since(UNIX_EPOCH)` and
/// panics on a clock set before 1970 (which is left unsaid).
#[verifier::external_body]
pub(crate) fn utc_now_timestamp() -> (t: i64)
    ensures
        in_chrono_range(t as int),
        0 <= t,
{
    Utc::now().timestamp()
}

/// Renders an instant at a fixed offset: `DateTime::from_timestamp`, then
/// `FixedOffset::from_utc_datetime` and `format(format).to_string()`.
/// `from_timestamp` fails exactly outside chrono's range; otherwise the
/// text is the named chrono rendering.
#[verifier::external_body]
pub(crate) fn format_at_offset(unix_seconds: i64, offset_seconds: i32, format: &str) -> (r: Option<String>)
    requires
        valid_offset(offset_seconds as int),
        renderable_format(format@),
    ensures
        r is Some <==> in_chrono_range(unix_seconds as int),
        r matches Some(text) ==> text@ == chrono_format_at_offset(unix_seconds, offset_seconds, format@),
{
    let zone = chrono::FixedOffset::east_opt(offset_seconds).unwrap();
    let utc = DateTime::from_timestamp(unix_seconds, 0)?;
    Some(zone.from_utc_datetime(&utc.naive_utc()).format(format).to_string())
}

/// The machine's local offset at an instant: `DateTime::from_timestamp`,
/// then `Local.offset_from_utc_datetime(..).local_minus_utc()`. It fails
/// exactly outside chrono's range; the offset depends on the machine's zone
/// settings, so only its bounds are stated. (chrono panics when the zone
/// data that it finds on the machine is unusable; that is left unsaid.)
#[verifier::external_body]
pub(crate) fn local_offset_at(unix_seconds: i64) -> (r: Option<i32>)
    ensures
        r is Some <==> in_chrono_range(unix_seconds as int),
        r matches Some(offset) ==> valid_offset(offset as int),
{
    let utc = DateTime::from_timestamp(unix_seconds, 0)?;
    Some(Local.offset_from_utc_datetime(&utc.naive_utc()).fix().local_minus_utc())
}

/// `DateTime::parse_from_str(input, format)`, then `timestamp()`.
#[verifier::external_body]
pub(crate) fn parse_with_offset(input: &str, format: &str) -> (r: Option<i64>)
    ensures
        r == chrono_parse_with_offset(input@, format@),
        r matches Some(t) ==> in_chrono_range(t as int),
{
    match DateTime::parse_from_str(input, format) {
        Ok(parsed) => Some(parsed.timestamp()),
        Err(_) => None,
    }
}

/// `DateTime::parse_from_rfc3339(input)`, then `timestamp()`.
#[verifier::external_body]
pub(crate) fn parse_rfc3339(input: &str) -> (r: Option<i64>)
    ensures
        r == chrono_parse_rfc3339(input@),
        r matches Some(t) ==> in_chrono_range(t as int),
{
    match DateTime::parse_from_rfc3339(input) {
        Ok(parsed) => Some(parsed.timestamp()),
        Err(_) => None,
    }
}

/// `NaiveDateTime::parse_from_str(input, format)`, then
/// `and_utc().timestamp()`.
#[verifier::external_body]
pub(crate) fn parse_naive_datetime(input: &str, format: &str) -> (r: Option<i64>)
    ensures
        r == chrono_parse_naive_datetime(input@, format@),
        r matches Some(t) ==> in_chrono_range(t as int),
{
    match NaiveDateTime::parse_from_str(input, format) {
        Ok(parsed) => Some(parsed.and_utc().timestamp()),
        Err(_) => None,
    }
}

/// `NaiveDate::parse_from_str(input, format)`, then `and_hms_opt(0, 0, 0)`
/// (which chrono never refuses) and `and_utc().timestamp()`.
#[verifier::external_body]
pub(crate) fn parse_naive_date(input: &str, format: &str) -> (r: Option<i64>)
    ensures
        r == chrono_parse_naive_date(input@, format@),
        r matches Some(t) ==> in_chrono_range(t as int),
{
    match NaiveDate::parse_from_str(input, format) {
        Ok(parsed) => match parsed.and_hms_opt(0, 0, 0) {
            Some(midnight) => Some(midnight.and_utc().timestamp()),
            None => None,
        },
        Err(_) => None,
    }
}

/// `FixedOffset::from_local_datetime(..).single()`, then `timestamp()`, for
/// the naive date/time `local_seconds`. For a fixed offset chrono's answer
/// is always single, and it subtracts the offset with
/// `NaiveDateTime::checked_sub_offset`, which fails exactly where the result
/// leaves chrono's range.
#[verifier::external_body]
pub(crate) fn fixed_local_to_utc(local_seconds: i64, offset_seconds: i32) -> (r: Option<i64>)
    requires
        in_chrono_range(local_seconds as int),
        valid_offset(offset_seconds as int),
    ensures
        r == (if in_chrono_range(local_seconds - offset_seconds) {
            Some((local_seconds - offset_seconds) as i64)
        } else {
            None
        }),
{
    let zone = chrono::FixedOffset::east_opt(offset_seconds).unwrap();
    let naive = DateTime::from_timestamp(local_seconds, 0).unwrap().naive_utc();
    match zone.from_local_datetime(&naive).single() {
        Some(found) => Some(found.timestamp()),
        None => None,
    }
}

/// `Local.from_local_datetime(..).single()`, then `timestamp()`, for the
/// naive date/time `local_seconds`. Whether the machine's zone maps it to
/// one instant (not to none, in a gap, nor to two, in an overlap) and to
/// which depends on the machine; what holds of every answer is that it lies
/// in chrono's range and less than a day away from `local_seconds`, since
/// the offset that chrono subtracts is a `FixedOffset`. (chrono panics when
/// the zone data that it finds on the machine is unusable; that is left
/// unsaid.)
#[verifier::external_body]
pub(crate) fn local_zone_local_to_utc(local_seconds: i64) -> (r: Option<i64>)
    requires
        in_chrono_range(local_seconds as int),
    ensures
        r matches Some(t) ==> in_chrono_range(t as int) && local_seconds - 86_400 < t
            < local_seconds + 86_400,
{
    let naive = DateTime::from_timestamp(local_seconds, 0).unwrap().naive_utc();
    match Local.from_local_datetime(&naive).single() {
        Some(found) => Some(found.timestamp()),
        None => None,
    }
}

/// The sign, hours, minutes (and seconds, where there are any) of a zone
/// offset, as chrono's `Display` for `FixedOffset` writes them: `+09:00`,
/// `-05:30`, `+00:00:30`.
pub open spec fn offset_display(offset_seconds: int) -> Seq<char> {
    let sign = if offset_seconds < 0 {
        '-'
    } else {
        '+'
    };
    let magnitude = if offset_seconds < 0 {
        -offset_seconds
    } else {
        offset_seconds
    };
    let sec = magnitude % 60;
    let minutes = magnitude / 60;
    let min = minutes % 60;
    let hour = minutes / 60;
    if sec == 0 {
        seq![sign] + two_digits(hour) + seq![':'] + two_digits(min)
    } else {
        seq![sign] + two_digits(hour) + seq![':'] + two_digits(min) + seq![':'] + two_digits(sec)
    }
}

/// A number below 100 written with two digits, as `{:02}` writes it.
pub open spec fn two_digits(n: int) -> Seq<char> {
    seq![((n / 10) + ('0' as int)) as char, ((n % 10) + ('0' as int)) as char]
}

/// `FixedOffset::east_opt(offset_seconds)` written by its `Display`
/// (`to_string()`). chrono's source writes it with `{sign}{hour:02}:{min:02}`
/// and appends `:{sec:02}` where the seconds are not zero.
#[verifier::external_body]
pub(crate) fn offset_to_string(offset_seconds: i32) -> (r: String)
    requires
        valid_offset(offset_seconds as int),
    ensures
        r@ == offset_display(offset_seconds as int),
{
    chrono::FixedOffset::east_opt(offset_seconds).unwrap().to_string()
}

} // verus!
