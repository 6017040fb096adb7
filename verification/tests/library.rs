use time_copy_icon::announce::announce_p_text;
use time_copy_icon::commands::{
    announce_p_message, convert_iso8601_input, convert_iso8601_input_in, convert_unixtime_input,
    copy_notification_body, get_iso8601_example_now, iso8601_sample_copied_message,
    notification_title,
};
use time_copy_icon::datetime::{
    iso8601_example_now, local_string_from_unix_seconds, parse_flexible_datetime_to_unix,
    unixtime_input_to_local_string, unixtime_str_now, ymd1_str_now, ymd2_str_now, UtcOffset, Zone,
};
use time_copy_icon::decimal::{format_i64, parse_i64};
use time_copy_icon::datetime::{compact_string_from_unix_seconds, iso8601_sample};
use time_copy_icon::text::{remove_char, same_text, trimmed_chars};
use time_copy_icon::tray::{
    tray_gesture_action, tray_menu_action, TrayGesture, TrayGestureAction, TrayMenuAction,
};

fn jst() -> Zone {
    Zone::Fixed(UtcOffset::east_opt(9 * 3600).unwrap())
}

fn utc() -> Zone {
    Zone::Fixed(UtcOffset::east_opt(0).unwrap())
}

fn chars(s: &str) -> Vec<char> {
    s.chars().collect()
}

fn text(v: &[char]) -> String {
    v.iter().collect()
}

#[test]
fn offsets_are_bounded_by_a_day() {
    assert!(UtcOffset::east_opt(86_399).is_some());
    assert!(UtcOffset::east_opt(-86_399).is_some());
    assert!(UtcOffset::east_opt(86_400).is_none());
    assert!(UtcOffset::east_opt(-86_400).is_none());
    assert_eq!(UtcOffset::east_opt(-18_000).unwrap().local_minus_utc(), -18_000);
}

#[test]
fn rendering_covers_exactly_chronos_range() {
    assert_eq!(
        local_string_from_unix_seconds(8_210_266_876_799, &utc()).as_deref(),
        Some("+262142/12/31 23:59:59")
    );
    assert_eq!(local_string_from_unix_seconds(8_210_266_876_800, &utc()), None);
    assert!(local_string_from_unix_seconds(-8_334_601_228_800, &utc()).is_some());
    assert_eq!(local_string_from_unix_seconds(-8_334_601_228_801, &utc()), None);
    // At the edges, an offset may carry the local date/time past them.
    let west = Zone::Fixed(UtcOffset::east_opt(-86_399).unwrap());
    assert!(local_string_from_unix_seconds(8_210_266_876_799, &jst()).is_some());
    assert!(local_string_from_unix_seconds(-8_334_601_228_800, &west).is_some());
    assert_eq!(local_string_from_unix_seconds(i64::MAX, &jst()), None);
    assert_eq!(local_string_from_unix_seconds(i64::MIN, &jst()), None);
}

#[test]
fn rendering_uses_the_zone_offset() {
    assert_eq!(local_string_from_unix_seconds(0, &utc()).as_deref(), Some("1970/01/01 00:00:00"));
    assert_eq!(local_string_from_unix_seconds(0, &jst()).as_deref(), Some("1970/01/01 09:00:00"));
    let west = Zone::Fixed(UtcOffset::east_opt(-5 * 3600 - 1800).unwrap());
    assert_eq!(local_string_from_unix_seconds(0, &west).as_deref(), Some("1969/12/31 18:30:00"));
    assert!(local_string_from_unix_seconds(1_787_818_376, &Zone::Local).is_some());
}

#[test]
fn unixtime_input_ignores_surrounding_white_space() {
    let plain = unixtime_input_to_local_string("1787818376", &jst());
    assert_eq!(unixtime_input_to_local_string("  1787818376\r\n", &jst()), plain);
    assert_eq!(unixtime_input_to_local_string("\u{3000}1787818376\t", &jst()), plain);
    assert_eq!(unixtime_input_to_local_string(" 1787818376000 ", &jst()), plain);
}

#[test]
fn unixtime_input_accepts_signs_and_leading_zeros() {
    assert_eq!(
        unixtime_input_to_local_string("+1787818376", &jst()).as_deref(),
        Some("2026/08/27 17:12:56")
    );
    // Eleven characters, so seconds, not milliseconds.
    assert_eq!(
        unixtime_input_to_local_string("01787818376", &jst()).as_deref(),
        Some("2026/08/27 17:12:56")
    );
    assert_eq!(unixtime_input_to_local_string("-1", &utc()).as_deref(), Some("1969/12/31 23:59:59"));
}

#[test]
fn thirteen_characters_with_a_sign_are_milliseconds_rounded_down() {
    // "-123456789012" has 13 characters: -123456789012 ms rounds down to -123456790 s.
    assert_eq!(
        unixtime_input_to_local_string("-123456789012", &utc()),
        local_string_from_unix_seconds(-123_456_790, &utc())
    );
    // "+178781837600" has 13 characters too.
    assert_eq!(
        unixtime_input_to_local_string("+178781837600", &utc()),
        local_string_from_unix_seconds(178_781_837, &utc())
    );
}

#[test]
fn unixtime_input_rejects_what_is_no_i64() {
    for bad in ["", "   ", "+", "-", "12a", "1 2", "１２３", "9223372036854775808", "0x10", "1.5"] {
        assert_eq!(unixtime_input_to_local_string(bad, &jst()), None, "{bad:?}");
    }
    // Fits in an i64, but lies outside chrono's range.
    assert_eq!(unixtime_input_to_local_string("-9223372036854775808", &jst()), None);
    assert_eq!(unixtime_input_to_local_string("9223372036854775807", &jst()), None);
}

#[test]
fn decimal_integers_are_read_and_written_as_std_does() {
    for n in [0i64, 7, -7, 10, 1_787_818_376, -1_000, i64::MAX, i64::MIN] {
        let written = format_i64(n);
        assert_eq!(text(&written), n.to_string());
        assert_eq!(parse_i64(&written), Some(n));
    }
    for s in ["+0", "-0", "007", "+9223372036854775807", "-9223372036854775808", "", "-", "+-1", " 1", "9223372036854775808", "-9223372036854775809", "99999999999999999999999"] {
        assert_eq!(parse_i64(&chars(s)), s.parse::<i64>().ok(), "{s:?}");
    }
}

#[test]
fn trimming_matches_std() {
    for s in ["", "  ", " a b ", "\u{2028}x\u{85}", "\u{a0}\u{3000}y\u{200b}", "\r\nz\r\n", "\u{1680}\u{202f}\u{205f}q\u{2009}"] {
        assert_eq!(text(&trimmed_chars(s)), s.trim(), "{s:?}");
    }
}

#[test]
fn removing_colons_matches_std_replace() {
    for s in ["+09:00", "-05:30", "+00:00:30", "::a:"] {
        assert_eq!(text(&remove_char(&chars(s), ':')), s.replace(':', ""));
    }
}

#[test]
fn datetime_text_in_every_shape() {
    let z = jst();
    let expected = 1_787_560_943;
    assert_eq!(parse_flexible_datetime_to_unix("2026-08-24T17:42:23+0900", &z), Some(expected));
    assert_eq!(parse_flexible_datetime_to_unix("2026-08-24T08:42:23+00:00", &z), Some(expected));
    assert_eq!(parse_flexible_datetime_to_unix("2026-08-24T08:42:23Z", &z), Some(expected));
    assert_eq!(parse_flexible_datetime_to_unix("2026-08-24T17:42:23", &z), Some(expected));
    assert_eq!(parse_flexible_datetime_to_unix("2026-08-24 17:42:23", &z), Some(expected));
    assert_eq!(parse_flexible_datetime_to_unix("2026/08/24 17:42:23", &z), Some(expected));
    assert_eq!(parse_flexible_datetime_to_unix("  2026/08/24 17:42:23 \n", &z), Some(expected));
    // A date alone is midnight in the zone.
    assert_eq!(parse_flexible_datetime_to_unix("2026-08-24", &z), Some(1_787_497_200));
    assert_eq!(parse_flexible_datetime_to_unix("2026-08-24", &utc()), Some(1_787_529_600));
    // An offset in the text wins over the zone.
    assert_eq!(
        parse_flexible_datetime_to_unix("2026-08-24T17:42:23+0900", &utc()),
        Some(expected)
    );
    assert_eq!(parse_flexible_datetime_to_unix("", &z), None);
    assert_eq!(parse_flexible_datetime_to_unix("2026-13-01", &z), None);
    assert_eq!(parse_flexible_datetime_to_unix("24/08/2026", &z), None);
}

#[test]
fn the_sample_text_has_a_colonless_offset_and_reads_back() {
    let sample = iso8601_example_now();
    let n = sample.chars().count();
    assert!(n == 24 || n == 26, "{sample}");
    assert_eq!(&sample[10..11], "T");
    assert!(!sample[19..].contains(':'), "{sample}");
    assert!(sample[19..].starts_with('+') || sample[19..].starts_with('-'));
    assert!(parse_flexible_datetime_to_unix(&sample, &Zone::Local).is_some(), "{sample}");
    let again = get_iso8601_example_now();
    assert_eq!(again.len(), sample.len());
}

#[test]
fn current_time_texts_have_their_shapes() {
    let unix = unixtime_str_now();
    let value: i64 = unix.parse().unwrap();
    assert!(value > 1_600_000_000);
    let ymd1 = ymd1_str_now(&jst());
    assert_eq!(ymd1.len(), 19);
    assert_eq!(&ymd1[4..5], "/");
    assert_eq!(&ymd1[13..14], ":");
    let ymd2 = ymd2_str_now(&utc());
    assert_eq!(ymd2.len(), 14);
    assert!(ymd2.chars().all(|c| c.is_ascii_digit()));
    assert_eq!(ymd1_str_now(&Zone::Local).len(), 19);
}

#[test]
fn the_copied_unix_time_reads_back_as_the_same_instant() {
    let now = unixtime_str_now();
    let value: i64 = now.parse().unwrap();
    assert_eq!(
        convert_unixtime_input(now.clone()),
        local_string_from_unix_seconds(value, &Zone::Local)
    );
}

#[test]
fn conversion_form_results() {
    let blank = convert_iso8601_input_in(" \t ", &jst());
    assert_eq!(blank.unixtime, None);
    assert_eq!(blank.message, "");
    let failed = convert_iso8601_input_in("not a date", &jst());
    assert_eq!(failed.unixtime, None);
    assert_eq!(failed.message, "変換出来ませんでした");
    let done = convert_iso8601_input_in("2026-08-24 17:42:23", &jst());
    assert_eq!(done.unixtime.as_deref(), Some("1787560943"));
    assert_eq!(done.message, "変換しました。日付けは\n2026/08/24 17:42:23");
    // The offset in the text is not kept: the message shows the zone's time.
    let other = convert_iso8601_input_in("2026-08-24T08:42:23+00:00", &jst());
    assert_eq!(other.message, "変換しました。日付けは\n2026/08/24 17:42:23");
    let local_blank = convert_iso8601_input(String::from("   "));
    assert_eq!(local_blank.unixtime, None);
    assert_eq!(local_blank.message, "");
    let local = convert_iso8601_input(String::from("2026-09-08T10:32:14+0900"));
    assert_eq!(local.unixtime.as_deref(), Some("1788831134"));
}

#[test]
fn a_thirteen_digit_unix_time_is_shown_back_as_milliseconds() {
    // 1000000000000 s lies in year 33658; its 13 digits are read back as milliseconds.
    let r = convert_iso8601_input_in("+33658-09-27T01:46:40+0000", &utc());
    assert_eq!(r.unixtime.as_deref(), Some("1000000000000"));
    assert_eq!(r.message, "変換しました。日付けは\n2001/09/09 01:46:40");
}

#[test]
fn unixtime_form_uses_the_local_zone() {
    assert_eq!(convert_unixtime_input(String::from("abc")), None);
    assert_eq!(
        convert_unixtime_input(String::from("1787818376")),
        local_string_from_unix_seconds(1_787_818_376, &Zone::Local)
    );
}

#[test]
fn announce_wraps_and_marks_line_breaks() {
    assert_eq!(
        announce_p_text("  line1\r\nline2\nline3  "),
        "<p>\nline1<br/>\nline2<br/>\nline3\n</p>"
    );
    assert_eq!(announce_p_text(""), "<p>\n\n</p>");
    assert_eq!(announce_p_text("a\r\r\nb"), "<p>\na\r<br/>\nb\n</p>");
    for clip in ["x\r\ny", "\r\n\r\nq\r", "a\r\r\nb", "one\n\ntwo"] {
        let expected = format!("<p>\n{}\n</p>", clip.trim().replace("\r\n", "\n").replace('\n', "<br/>\n"));
        let got = announce_p_text(clip);
        assert_eq!(got, expected);
        assert!(!got.contains("\r\n"));
    }
}

#[test]
fn action_messages() {
    assert_eq!(notification_title(), "TimeCopyIconRust");
    assert_eq!(copy_notification_body("1787818376"), "コピーしました: 1787818376");
    assert_eq!(announce_p_message(), "貼付テキストを加工しました。");
    assert_eq!(
        iso8601_sample_copied_message("2026-09-08T10:32:14+0900"),
        "サンプル日付けをコピーしました。\n2026-09-08T10:32:14+0900"
    );
}

#[test]
fn zone_less_text_maps_to_an_instant_only_within_chronos_range() {
    let east = Zone::Fixed(UtcOffset::east_opt(3600).unwrap());
    let west = Zone::Fixed(UtcOffset::east_opt(-3600).unwrap());
    let max = "+262142-12-31 23:59:59";
    assert_eq!(parse_flexible_datetime_to_unix(max, &utc()), Some(8_210_266_876_799));
    assert_eq!(parse_flexible_datetime_to_unix(max, &east), Some(8_210_266_876_799 - 3600));
    assert_eq!(parse_flexible_datetime_to_unix(max, &west), None);
    let min = "-262143-01-01 00:00:00";
    assert_eq!(parse_flexible_datetime_to_unix(min, &utc()), Some(-8_334_601_228_800));
    assert_eq!(parse_flexible_datetime_to_unix(min, &west), Some(-8_334_601_228_800 + 3600));
    assert_eq!(parse_flexible_datetime_to_unix(min, &east), None);
}

#[test]
fn compact_rendering_and_sample_for_a_given_instant() {
    assert_eq!(compact_string_from_unix_seconds(1_787_818_376, &jst()).as_deref(), Some("20260827171256"));
    assert_eq!(compact_string_from_unix_seconds(8_210_266_876_800, &jst()), None);
    let nine = UtcOffset::east_opt(9 * 3600).unwrap();
    assert_eq!(iso8601_sample(1_788_831_134, &nine).as_deref(), Some("2026-09-08T10:32:14+0900"));
    let odd = UtcOffset::east_opt(-(5 * 3600 + 30 * 60 + 15)).unwrap();
    assert_eq!(iso8601_sample(0, &odd).as_deref(), Some("1969-12-31T18:29:45-053015"));
    assert_eq!(iso8601_sample(i64::MAX, &nine), None);
    // The sample reads back as the same instant.
    let sample = iso8601_sample(1_788_831_134, &nine).unwrap();
    assert_eq!(parse_flexible_datetime_to_unix(&sample, &utc()), Some(1_788_831_134));
}

#[test]
fn tray_menu_and_gestures() {
    assert_eq!(tray_menu_action("show_window"), TrayMenuAction::ShowWindow);
    assert_eq!(tray_menu_action("copy_unixtime"), TrayMenuAction::CopyUnixtime);
    assert_eq!(tray_menu_action("copy_ymd1"), TrayMenuAction::CopyYmd1);
    assert_eq!(tray_menu_action("copy_ymd2"), TrayMenuAction::CopyYmd2);
    assert_eq!(tray_menu_action("exit"), TrayMenuAction::Exit);
    assert_eq!(tray_menu_action("exit "), TrayMenuAction::Nothing);
    assert_eq!(tray_menu_action(""), TrayMenuAction::Nothing);
    assert_eq!(
        tray_gesture_action(TrayGesture::Click { left: true, released: true }),
        TrayGestureAction::ShowWindow
    );
    assert_eq!(
        tray_gesture_action(TrayGesture::Click { left: true, released: false }),
        TrayGestureAction::Nothing
    );
    assert_eq!(
        tray_gesture_action(TrayGesture::Click { left: false, released: true }),
        TrayGestureAction::Nothing
    );
    assert_eq!(
        tray_gesture_action(TrayGesture::DoubleClick { left: true }),
        TrayGestureAction::CopyUnixtime
    );
    assert_eq!(tray_gesture_action(TrayGesture::DoubleClick { left: false }), TrayGestureAction::Nothing);
    assert_eq!(tray_gesture_action(TrayGesture::Other), TrayGestureAction::Nothing);
}

#[test]
fn same_text_compares_characters() {
    assert!(same_text("", ""));
    assert!(same_text("日付け", "日付け"));
    assert!(!same_text("abc", "abd"));
    assert!(!same_text("ab", "abc"));
}
