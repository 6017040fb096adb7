use time_copy_icon::datetime::{
    local_string_from_unix_seconds, parse_flexible_datetime_to_unix,
    unixtime_input_to_local_string, UtcOffset, Zone,
};

fn jst() -> Zone {
    Zone::Fixed(UtcOffset::east_opt(9 * 3600).unwrap())
}

#[test]
fn unixtime_seconds_to_local_string_matches_screenshot_example() {
    // From the reference screenshot: 1787818376 -> 2026/08/27 17:12:56 (JST).
    let result = unixtime_input_to_local_string("1787818376", &jst());
    assert_eq!(result.as_deref(), Some("2026/08/27 17:12:56"));
}

#[test]
fn thirteen_digit_input_is_treated_as_milliseconds() {
    // 1787818376000 ms == 1787818376 s -> same local time as above.
    let result = unixtime_input_to_local_string("1787818376000", &jst());
    assert_eq!(result.as_deref(), Some("2026/08/27 17:12:56"));
}

#[test]
fn non_numeric_input_returns_none() {
    assert_eq!(unixtime_input_to_local_string("not-a-number", &jst()), None);
}

#[test]
fn out_of_range_input_returns_none_instead_of_panicking() {
    assert_eq!(unixtime_input_to_local_string("99999999999999999", &jst()), None);
}

#[test]
fn parses_sample_iso8601_format_with_colonless_offset() {
    // Matches what iso8601_example_now() itself generates.
    let unix = parse_flexible_datetime_to_unix("2026-09-08T10:32:14+0900", &jst()).unwrap();
    let back = local_string_from_unix_seconds(unix, &jst()).unwrap();
    assert_eq!(back, "2026/09/08 10:32:14");
}

#[test]
fn parses_rfc3339_with_colon_offset() {
    let unix = parse_flexible_datetime_to_unix("2026-09-08T10:32:14+09:00", &jst()).unwrap();
    let back = local_string_from_unix_seconds(unix, &jst()).unwrap();
    assert_eq!(back, "2026/09/08 10:32:14");
}

#[test]
fn parses_space_separated_date_matches_screenshot_example() {
    // From the reference screenshot: "2026-08-24 17:42:23" -> 1787560943 (interpreted in JST).
    let unix = parse_flexible_datetime_to_unix("2026-08-24 17:42:23", &jst()).unwrap();
    assert_eq!(unix, 1787560943);
}

#[test]
fn unparseable_input_returns_none() {
    assert_eq!(parse_flexible_datetime_to_unix("not a date", &jst()), None);
}
