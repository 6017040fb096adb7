//! Date/time conversions: the current time as text, unix time input read
//! as a local date/time, and date/time text in several shapes read as unix
//! time. Zones are either the machine's local zone or a fixed offset.

use crate::chrono_bridge::{
    chrono_format_at_offset, chrono_parse_naive_date, offset_display, offset_to_string, two_digits, chrono_parse_naive_datetime,
    chrono_parse_rfc3339, chrono_parse_with_offset, fixed_local_to_utc, format_at_offset,
    in_chrono_range, local_offset_at, local_zone_local_to_utc, parse_naive_date,
    parse_naive_datetime, parse_rfc3339, parse_with_offset, renderable_format,
    utc_now_timestamp, valid_offset,
};
use crate::decimal::{decimal, format_i64, parse_i64, parsed_i64};
use crate::text::{chars_of, remove_char, string_from_chars, trim, trimmed_chars, without_char};
use vstd::prelude::*;
use vstd::string::*;

verus! {

/// A zone offset east of UTC, in seconds, strictly less than a day either
/// way (the offsets that `chrono::FixedOffset` admits).
pub struct UtcOffset {
    seconds: i32,
}

impl UtcOffset {
    #[verifier::type_invariant]
    spec fn offset_in_bounds(self) -> bool {
        valid_offset(self.seconds as int)
    }

    /// The offset's seconds east of UTC.
    pub closed spec fn secs(self) -> i32 {
        self.seconds
    }

    /// The offset of `secs` seconds east of UTC, where that is less than a
    /// day either way.
    pub fn east_opt(secs: i32) -> (r: Option<UtcOffset>)
        ensures
            r is Some <==> valid_offset(secs as int),
            r matches Some(o) ==> o.secs() == secs,
    {
        if -86_400 < secs && secs < 86_400 {
            Some(UtcOffset { seconds: secs })
        } else {
            None
        }
    }

    pub fn local_minus_utc(&self) -> (r: i32)
        ensures
            r == self.secs(),
            valid_offset(r as int),
    {
        proof {
            use_type_invariant(self);
        }
        self.seconds
    }
}

/// The zone in which date/times are shown and read: the machine's local
/// zone, or a fixed offset.
pub enum Zone {
    Local,
    Fixed(UtcOffset),
}

/// `yyyy/MM/dd HH:mm:ss`
pub open spec fn slash_format() -> Seq<char> {
    "%Y/%m/%d %H:%M:%S"@
}

/// `yyyyMMddHHmmss`
pub open spec fn compact_format() -> Seq<char> {
    "%Y%m%d%H%M%S"@
}

/// `yyyy-MM-ddTHH:mm:ss`
pub open spec fn iso_local_format() -> Seq<char> {
    "%Y-%m-%dT%H:%M:%S"@
}

/// `yyyy-MM-ddTHH:mm:ss` followed by an offset such as `+0900`.
pub open spec fn iso_offset_format() -> Seq<char> {
    "%Y-%m-%dT%H:%M:%S%z"@
}

/// `yyyy-MM-dd`
pub open spec fn date_format() -> Seq<char> {
    "%Y-%m-%d"@
}

/// The zone-less date/time shapes that are tried in turn, most specific
/// first.
pub open spec fn naive_format(stage: int) -> Seq<char> {
    if stage == 0 {
        "%Y-%m-%dT%H:%M:%S"@
    } else if stage == 1 {
        "%Y-%m-%d %H:%M:%S"@
    } else {
        "%Y/%m/%d %H:%M:%S"@
    }
}

/// Whether `text` is what rendering the instant `unix_seconds` in `zone`
/// with `format` gives: at a fixed offset, exactly chrono's rendering at
/// that offset; in the local zone, chrono's rendering at whichever offset
/// the machine's zone has at that instant.
pub open spec fn zone_renders(zone: Zone, unix_seconds: i64, format: Seq<char>, text: Seq<char>) -> bool {
    match zone {
        Zone::Fixed(offset) => text == chrono_format_at_offset(unix_seconds, offset.secs(), format),
        Zone::Local => exists|o: i32|
            valid_offset(o as int) && text == #[trigger] chrono_format_at_offset(
                unix_seconds,
                o,
                format,
            ),
    }
}

/// Renders the instant `unix_seconds` in `zone` with `format`; `None`
/// where chrono cannot represent the instant.
fn render_in_zone(unix_seconds: i64, zone: &Zone, format: &str) -> (r: Option<String>)
    requires
        renderable_format(format@),
    ensures
        r is Some <==> in_chrono_range(unix_seconds as int),
        r matches Some(text) ==> zone_renders(*zone, unix_seconds, format@, text@),
{
    match zone {
        Zone::Fixed(offset) => format_at_offset(unix_seconds, offset.local_minus_utc(), format),
        Zone::Local => match local_offset_at(unix_seconds) {
            Some(o) => {
                let r = format_at_offset(unix_seconds, o, format);
                assert(r matches Some(text) ==> text@ == chrono_format_at_offset(unix_seconds, o, format@));
                r
            },
            None => None,
        },
    }
}

/// Renders a unix-seconds timestamp as `yyyy/MM/dd HH:mm:ss` in `zone`;
/// `None` where chrono cannot represent the instant.
pub fn local_string_from_unix_seconds(unix_seconds: i64, zone: &Zone) -> (r: Option<String>)
    ensures
        r is Some <==> in_chrono_range(unix_seconds as int),
        r matches Some(text) ==> zone_renders(*zone, unix_seconds, slash_format(), text@),
{
    render_in_zone(unix_seconds, zone, "%Y/%m/%d %H:%M:%S")
}

/// Renders a unix-seconds timestamp as `yyyyMMddHHmmss` in `zone`; `None`
/// where chrono cannot represent the instant.
pub fn compact_string_from_unix_seconds(unix_seconds: i64, zone: &Zone) -> (r: Option<String>)
    ensures
        r is Some <==> in_chrono_range(unix_seconds as int),
        r matches Some(text) ==> zone_renders(*zone, unix_seconds, compact_format(), text@),
{
    render_in_zone(unix_seconds, zone, "%Y%m%d%H%M%S")
}

/// The current unix time in whole seconds, written in decimal.
pub fn unixtime_str_now() -> (r: String)
    ensures
        exists|t: i64| 0 <= t && in_chrono_range(t as int) && r@ == #[trigger] decimal(t as int),
{
    let now = utc_now_timestamp();
    let digits = format_i64(now);
    string_from_chars(&digits)
}

/// The current time as `yyyy/MM/dd HH:mm:ss` in `zone`.
pub fn ymd1_str_now(zone: &Zone) -> (r: String)
    ensures
        exists|t: i64| 0 <= t && in_chrono_range(t as int) && #[trigger] zone_renders(*zone, t, slash_format(), r@),
{
    let now = utc_now_timestamp();
    match local_string_from_unix_seconds(now, zone) {
        Some(text) => {
            assert(zone_renders(*zone, now, slash_format(), text@));
            text
        },
        None => {
            assert(false);
            String::new()
        },
    }
}

/// The current time as `yyyyMMddHHmmss` in `zone`.
pub fn ymd2_str_now(zone: &Zone) -> (r: String)
    ensures
        exists|t: i64| 0 <= t && in_chrono_range(t as int) && #[trigger] zone_renders(*zone, t, compact_format(), r@),
{
    let now = utc_now_timestamp();
    match compact_string_from_unix_seconds(now, zone) {
        Some(text) => {
            assert(zone_renders(*zone, now, compact_format(), text@));
            text
        },
        None => {
            assert(false);
            String::new()
        },
    }
}

/// The unix seconds that unix time input stands for: the trimmed input read
/// as a decimal `i64`, taken as milliseconds (and divided, rounding down,
/// by 1000) when the trimmed input is exactly 13 characters long, and as
/// seconds otherwise. (A trimmed input that reads as a number is ASCII, so
/// its length in characters is its length in bytes.)
pub open spec fn unix_seconds_of_input(input: Seq<char>) -> Option<i64> {
    let text = trim(input);
    match parsed_i64(text) {
        Some(v) => Some(
            if text.len() == 13 {
                (v / 1000) as i64
            } else {
                v
            },
        ),
        None => None,
    }
}

/// Reads unix time input and renders it as `yyyy/MM/dd HH:mm:ss` in
/// `zone`. Whether the input is seconds or milliseconds is decided by the
/// length of the trimmed input alone (13 characters: milliseconds), not by
/// its magnitude. `None` where the input is no decimal `i64`, or names an
/// instant that chrono cannot represent.
pub fn unixtime_input_to_local_string(input: &str, zone: &Zone) -> (r: Option<String>)
    ensures
        r is Some <==> (unix_seconds_of_input(input@) matches Some(t) && in_chrono_range(t as int)),
        r matches Some(text) ==> zone_renders(
            *zone,
            unix_seconds_of_input(input@)->0,
            slash_format(),
            text@,
        ),
{
    let text = trimmed_chars(input);
    let value = match parse_i64(&text) {
        Some(v) => v,
        None => {
            return None;
        },
    };
    let unix_seconds = if text.len() == 13 {
        match value.checked_div_euclid(1000) {
            Some(q) => q,
            None => {
                assert(false);
                value
            },
        }
    } else {
        value
    };
    local_string_from_unix_seconds(unix_seconds, zone)
}

/// What the zone-less reading `stage` gives for `text`: stages 0 to 2 read
/// a date and a time with `naive_format(stage)`, stage 3 reads a date alone
/// (taken at 00:00:00) with `date_format()`.
pub open spec fn naive_reading(text: Seq<char>, stage: int) -> Option<i64> {
    if stage < 3 {
        chrono_parse_naive_datetime(text, naive_format(stage))
    } else {
        chrono_parse_naive_date(text, date_format())
    }
}

/// The instant at which the fixed offset `offset` shows the zone-less
/// date/time `local_seconds`, where chrono can represent it.
pub open spec fn fixed_resolution(local_seconds: i64, offset: i32) -> Option<i64> {
    if in_chrono_range(local_seconds - offset) {
        Some((local_seconds - offset) as i64)
    } else {
        None
    }
}

/// The zone-less readings from `stage` on, at a fixed offset: the first
/// reading that succeeds and that the offset maps to an instant gives the
/// answer; a reading that succeeds but does not map passes on to the next.
pub open spec fn naive_stages_fixed(text: Seq<char>, offset: i32, stage: int) -> Option<i64>
    decreases 4 - stage,
{
    if stage >= 4 || stage < 0 {
        None
    } else {
        match naive_reading(text, stage) {
            Some(l) => match fixed_resolution(l, offset) {
                Some(u) => Some(u),
                None => naive_stages_fixed(text, offset, stage + 1),
            },
            None => naive_stages_fixed(text, offset, stage + 1),
        }
    }
}

/// What reading date/time text gives in a fixed zone: on the trimmed text,
/// first an ISO 8601 date/time with a colon-less offset, then RFC 3339,
/// then the zone-less shapes taken in the fixed zone.
pub open spec fn flexible_unix_fixed(input: Seq<char>, offset: i32) -> Option<i64> {
    let text = trim(input);
    match chrono_parse_with_offset(text, iso_offset_format()) {
        Some(u) => Some(u),
        None => match chrono_parse_rfc3339(text) {
            Some(u) => Some(u),
            None => naive_stages_fixed(text, offset, 0),
        },
    }
}

/// What holds of every answer that reading the zone-less shapes in the
/// machine's local zone can give: an instant comes from some successful
/// reading, less than a day away from it; and where no reading succeeds
/// there is no instant.
pub open spec fn naive_stages_local_outcome(text: Seq<char>, r: Option<i64>) -> bool {
    &&& r matches Some(u) ==> exists|stage: int|
        0 <= stage < 4 && (#[trigger] naive_reading(text, stage) matches Some(l) && in_chrono_range(
            u as int,
        ) && l - 86_400 < u < l + 86_400)
    &&& (forall|stage: int| 0 <= stage < 4 ==> #[trigger] naive_reading(text, stage) is None) ==> r
        is None
}

/// What holds of every answer that reading date/time text in the machine's
/// local zone can give: the readings that carry their own offset decide
/// exactly as in a fixed zone; the zone-less ones depend on the machine.
pub open spec fn flexible_unix_local_outcome(input: Seq<char>, r: Option<i64>) -> bool {
    let text = trim(input);
    match chrono_parse_with_offset(text, iso_offset_format()) {
        Some(u) => r == Some(u),
        None => match chrono_parse_rfc3339(text) {
            Some(u) => r == Some(u),
            None => naive_stages_local_outcome(text, r),
        },
    }
}

/// What reading date/time text in `zone` gives, as far as it is known.
pub open spec fn flexible_unix_outcome(input: Seq<char>, zone: Zone, r: Option<i64>) -> bool {
    match zone {
        Zone::Fixed(offset) => r == flexible_unix_fixed(input, offset.secs()),
        Zone::Local => flexible_unix_local_outcome(input, r),
    }
}

/// The instant at which `zone` shows the zone-less date/time
/// `local_seconds` as a single instant, if there is one.
fn resolve_in_zone(local_seconds: i64, zone: &Zone) -> (r: Option<i64>)
    requires
        in_chrono_range(local_seconds as int),
    ensures
        zone matches Zone::Fixed(offset) ==> r == fixed_resolution(local_seconds, offset.secs()),
        r matches Some(u) ==> in_chrono_range(u as int) && local_seconds - 86_400 < u
            < local_seconds + 86_400,
{
    match zone {
        Zone::Fixed(offset) => fixed_local_to_utc(local_seconds, offset.local_minus_utc()),
        Zone::Local => local_zone_local_to_utc(local_seconds),
    }
}

/// The zone-less reading `stage` of `text`.
fn read_naive_stage(text: &str, stage: usize) -> (r: Option<i64>)
    requires
        stage < 4,
    ensures
        r == naive_reading(text@, stage as int),
        r matches Some(l) ==> in_chrono_range(l as int),
{
    if stage == 0 {
        parse_naive_datetime(text, "%Y-%m-%dT%H:%M:%S")
    } else if stage == 1 {
        parse_naive_datetime(text, "%Y-%m-%d %H:%M:%S")
    } else if stage == 2 {
        parse_naive_datetime(text, "%Y/%m/%d %H:%M:%S")
    } else {
        parse_naive_date(text, "%Y-%m-%d")
    }
}

/// Reads date/time text as unix time, trying shapes in turn, most specific
/// first: `2026-09-08T10:32:14+0900`, RFC 3339 (`2026-09-08T10:32:14+09:00`),
/// then the zone-less `2026-09-08T10:32:14`, `2026-09-08 10:32:14`,
/// `2026/09/08 10:32:14` and `2026-09-08` (at 00:00:00), which are taken in
/// `zone`. A zone-less reading that the zone does not map to a single
/// instant passes on to the next shape. Surrounding white space is ignored.
pub fn parse_flexible_datetime_to_unix(input: &str, zone: &Zone) -> (r: Option<i64>)
    ensures
        flexible_unix_outcome(input@, *zone, r),
        r matches Some(u) ==> in_chrono_range(u as int),
{
    let chars = trimmed_chars(input);
    let text_string = string_from_chars(&chars);
    let text = text_string.as_str();
    let ghost t = trim(input@);
    assert(text@ == t);
    if let Some(u) = parse_with_offset(text, "%Y-%m-%dT%H:%M:%S%z") {
        return Some(u);
    }
    if let Some(u) = parse_rfc3339(text) {
        return Some(u);
    }
    let mut stage: usize = 0;
    while stage < 4
        invariant
            stage <= 4,
            text@ == t,
            t == trim(input@),
            chrono_parse_with_offset(t, iso_offset_format()) is None,
            chrono_parse_rfc3339(t) is None,
            zone matches Zone::Fixed(offset) ==> naive_stages_fixed(t, offset.secs(), 0)
                == naive_stages_fixed(t, offset.secs(), stage as int),
        decreases 4 - stage,
    {
        match read_naive_stage(text, stage) {
            Some(l) => {
                match resolve_in_zone(l, zone) {
                    Some(u) => {
                        assert(naive_reading(t, stage as int) == Some(l));
                        proof {
                            match zone {
                                Zone::Fixed(offset) => {
                                    assert(naive_stages_fixed(t, offset.secs(), stage as int)
                                        == Some(u));
                                    assert(naive_stages_fixed(t, offset.secs(), 0) == Some(u));
                                    assert(flexible_unix_fixed(input@, offset.secs()) == Some(u));
                                },
                                Zone::Local => {
                                    assert(naive_stages_local_outcome(t, Some(u)));
                                    assert(flexible_unix_local_outcome(input@, Some(u)));
                                },
                            }
                        }
                        return Some(u);
                    },
                    None => {},
                }
            },
            None => {},
        }
        proof {
            if let Zone::Fixed(offset) = zone {
                assert(naive_stages_fixed(t, offset.secs(), stage as int) == naive_stages_fixed(
                    t,
                    offset.secs(),
                    stage + 1,
                ));
            }
        }
        stage = stage + 1;
    }
    None
}

/// A zone offset written as ISO 8601's basic format writes it, with no
/// colon: the sign, then two digits each of hours and minutes (and of
/// seconds, where there are any), such as `+0900` or `-0530`.
pub open spec fn compact_offset(offset_seconds: int) -> Seq<char> {
    let sign = if offset_seconds < 0 {
        '-'
    } else {
        '+'
    };
    let magnitude = if offset_seconds < 0 {
        -offset_seconds
    } else {
        offset_seconds
    };
    let sec = magnitude % 60;
    let minutes = magnitude / 60;
    let min = minutes % 60;
    let hour = minutes / 60;
    if sec == 0 {
        seq![sign] + two_digits(hour) + two_digits(min)
    } else {
        seq![sign] + two_digits(hour) + two_digits(min) + two_digits(sec)
    }
}

/// Removing the colons from chrono's `+HH:MM` (or `+HH:MM:SS`) display of
/// an offset gives its colon-less form `+HHMM` (or `+HHMMSS`): the sample
/// date/time text carries its offset without a colon.
pub proof fn lemma_offset_without_colons(offset_seconds: int)
    requires
        valid_offset(offset_seconds),
    ensures
        without_char(offset_display(offset_seconds), ':') == compact_offset(offset_seconds),
        !compact_offset(offset_seconds).contains(':'),
{
    let magnitude = if offset_seconds < 0 {
        -offset_seconds
    } else {
        offset_seconds
    };
    let sec = magnitude % 60;
    let minutes = magnitude / 60;
    let min = minutes % 60;
    let hour = minutes / 60;
    assert(0 <= hour < 24);
    let d = offset_display(offset_seconds);
    let c = compact_offset(offset_seconds);
    reveal_with_fuel(without_char, 10);
    if sec == 0 {
        assert(d.len() == 6);
        assert(d.drop_first().drop_first().drop_first().drop_first() =~= two_digits(min));
        assert(without_char(d, ':') =~= c);
    } else {
        assert(d.len() == 9);
        assert(without_char(d, ':') =~= c);
    }
    assert forall|i: int| 0 <= i < c.len() implies c[i] != ':' by {}
}

/// Sample ISO 8601 text for the instant `unix_seconds` at `offset`: the
/// date/time there as `yyyy-MM-ddTHH:mm:ss` followed by the offset with its
/// colons removed, such as `2026-09-08T10:32:14+0900`; `None` where chrono
/// cannot represent the instant.
pub fn iso8601_sample(unix_seconds: i64, offset: &UtcOffset) -> (r: Option<String>)
    ensures
        r is Some <==> in_chrono_range(unix_seconds as int),
        r matches Some(text) ==> text@ == chrono_format_at_offset(
            unix_seconds,
            offset.secs(),
            iso_local_format(),
        ) + compact_offset(offset.secs() as int),
{
    let seconds = offset.local_minus_utc();
    let head = match format_at_offset(unix_seconds, seconds, "%Y-%m-%dT%H:%M:%S") {
        Some(text) => text,
        None => {
            return None;
        },
    };
    let shown = offset_to_string(seconds);
    let tail_chars = remove_char(&chars_of(shown.as_str()), ':');
    let tail = string_from_chars(&tail_chars);
    proof {
        lemma_offset_without_colons(seconds as int);
    }
    Some(head.concat(tail.as_str()))
}

/// The current local date/time as sample ISO 8601 text: the local date/time
/// as `yyyy-MM-ddTHH:mm:ss` followed by the local offset with its colons
/// removed, such as `2026-09-08T10:32:14+0900`.
pub fn iso8601_example_now() -> (r: String)
    ensures
        exists|t: i64, o: i32|
            0 <= t && in_chrono_range(t as int) && valid_offset(o as int) && r@ == #[trigger] chrono_format_at_offset(t, o, iso_local_format())
                + compact_offset(o as int),
{
    let now = utc_now_timestamp();
    let seconds = match local_offset_at(now) {
        Some(o) => o,
        None => {
            assert(false);
            0
        },
    };
    let offset = match UtcOffset::east_opt(seconds) {
        Some(o) => o,
        None => {
            assert(false);
            return String::new();
        },
    };
    match iso8601_sample(now, &offset) {
        Some(text) => {
            assert(text@ == chrono_format_at_offset(now, seconds, iso_local_format())
                + compact_offset(seconds as int));
            text
        },
        None => {
            assert(false);
            String::new()
        },
    }
}

} // verus!
