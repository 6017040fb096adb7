//! What the utility's commands compute: the results of the two conversion
//! forms, the text that the "AnnounceP" action writes back to the
//! clipboard, and the messages that the actions show. Reading and writing
//! the clipboard and showing notifications happen around these, outside
//! the library.

use crate::chrono_bridge::{in_chrono_range, valid_offset, chrono_format_at_offset};
use crate::datetime::{
    compact_offset, flexible_unix_outcome, iso8601_example_now, iso_local_format,
    parse_flexible_datetime_to_unix, slash_format, unix_seconds_of_input,
    unixtime_input_to_local_string, zone_renders, Zone,
};
use crate::decimal::{decimal, format_i64};
use crate::text::{string_from_chars, trim, trimmed_chars};
use vstd::prelude::*;
use vstd::string::*;

verus! {

/// The outcome of the date/time-text form: the unix time read, if any, and
/// the status message to show.
pub struct ConversionResult {
    pub unixtime: Option<String>,
    pub message: String,
}

/// The unix time form: reads unix time input in the machine's local zone.
pub fn convert_unixtime_input(input: String) -> (r: Option<String>)
    ensures
        r is Some <==> (unix_seconds_of_input(input@) matches Some(t) && in_chrono_range(t as int)),
        r matches Some(text) ==> zone_renders(
            Zone::Local,
            unix_seconds_of_input(input@)->0,
            slash_format(),
            text@,
        ),
{
    unixtime_input_to_local_string(input.as_str(), &Zone::Local)
}

pub open spec fn converted_prefix() -> Seq<char> {
    "変換しました。日付けは\n"@
}

pub open spec fn not_converted_message() -> Seq<char> {
    "変換出来ませんでした"@
}

/// What the status message shows of the instant `u`: its decimal unix time
/// read back as unix time input and rendered in `zone`, or nothing where
/// that fails. (A unix time of exactly 13 characters is read back as
/// milliseconds.)
pub open spec fn rendered_back(u: i64, zone: Zone, rendered: Seq<char>) -> bool {
    match unix_seconds_of_input(decimal(u as int)) {
        Some(t) => if in_chrono_range(t as int) {
            zone_renders(zone, t, slash_format(), rendered)
        } else {
            rendered == Seq::<char>::empty()
        },
        None => rendered == Seq::<char>::empty(),
    }
}

/// Whether `r` is what the date/time-text form gives for `input` in `zone`
/// when reading the text gives `parsed`: blank input gives no unix time and
/// an empty message; otherwise the unix time read, in decimal, with a
/// message that shows it as a local date/time, or no unix time and a
/// message that says so.
pub open spec fn conversion_outcome(
    input: Seq<char>,
    zone: Zone,
    parsed: Option<i64>,
    r: ConversionResult,
) -> bool {
    if trim(input).len() == 0 {
        &&& r.unixtime is None
        &&& r.message@ == Seq::<char>::empty()
    } else {
        &&& flexible_unix_outcome(input, zone, parsed)
        &&& match parsed {
            Some(u) => {
                &&& in_chrono_range(u as int)
                &&& r.unixtime matches Some(text) && text@ == decimal(u as int)
                &&& exists|rendered: Seq<char>|
                    r.message@ == converted_prefix() + rendered && #[trigger] rendered_back(
                        u,
                        zone,
                        rendered,
                    )
            },
            None => {
                &&& r.unixtime is None
                &&& r.message@ == not_converted_message()
            },
        }
    }
}

/// The date/time-text form in `zone`.
pub fn convert_iso8601_input_in(input: &str, zone: &Zone) -> (r: ConversionResult)
    ensures
        exists|parsed: Option<i64>| #[trigger] conversion_outcome(input@, *zone, parsed, r),
{
    let trimmed = trimmed_chars(input);
    if trimmed.len() == 0 {
        let r = ConversionResult { unixtime: None, message: String::new() };
        assert(conversion_outcome(input@, *zone, None, r));
        return r;
    }
    let parsed = parse_flexible_datetime_to_unix(input, zone);
    match parsed {
        Some(unix) => {
            let digits = string_from_chars(&format_i64(unix));
            let shown = unixtime_input_to_local_string(digits.as_str(), zone);
            let rendered = match shown {
                Some(text) => text,
                None => String::new(),
            };
            let message = "変換しました。日付けは\n".to_owned().concat(rendered.as_str());
            let r = ConversionResult { unixtime: Some(digits), message };
            assert(rendered_back(unix, *zone, rendered@));
            assert(conversion_outcome(input@, *zone, parsed, r));
            r
        },
        None => {
            let r = ConversionResult { unixtime: None, message: "変換出来ませんでした".to_owned() };
            assert(conversion_outcome(input@, *zone, parsed, r));
            r
        },
    }
}

/// The date/time-text form: reads the text in the machine's local zone.
pub fn convert_iso8601_input(input: String) -> (r: ConversionResult)
    ensures
        exists|parsed: Option<i64>| #[trigger] conversion_outcome(input@, Zone::Local, parsed, r),
{
    convert_iso8601_input_in(input.as_str(), &Zone::Local)
}

/// The initial text of the ISO 8601 sample field.
pub fn get_iso8601_example_now() -> (r: String)
    ensures
        exists|t: i64, o: i32|
            0 <= t && in_chrono_range(t as int) && valid_offset(o as int) && r@ == #[trigger] chrono_format_at_offset(t, o, iso_local_format())
                + compact_offset(o as int),
{
    iso8601_example_now()
}

/// The title of every notification that the actions show.
pub fn notification_title() -> (r: String)
    ensures
        r@ == "TimeCopyIconRust"@,
{
    "TimeCopyIconRust".to_owned()
}

/// The notification shown after the copy actions put `text` on the
/// clipboard: `コピーしました: ` followed by the text.
pub fn copy_notification_body(text: &str) -> (r: String)
    ensures
        r@ == "コピーしました: "@ + text@,
{
    "コピーしました: ".to_owned().concat(text)
}

/// The message of the "AnnounceP" action once the clipboard text is
/// rewritten.
pub fn announce_p_message() -> (r: String)
    ensures
        r@ == "貼付テキストを加工しました。"@,
{
    "貼付テキストを加工しました。".to_owned()
}

/// The message shown once the sample date/time `text` is on the
/// clipboard: `サンプル日付けをコピーしました。`, a line break, and the text.
pub fn iso8601_sample_copied_message(text: &str) -> (r: String)
    ensures
        r@ == "サンプル日付けをコピーしました。\n"@ + text@,
{
    "サンプル日付けをコピーしました。\n".to_owned().concat(text)
}

} // verus!
