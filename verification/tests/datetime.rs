use ofx_parse::datetime::{parse_datetime, OfxDateTime};
use ofx_parse::error::Error;

fn dt(
    y: u16,
    mo: u8,
    d: u8,
    h: u8,
    mi: u8,
    s: u8,
    ms: u16,
    off: i8,
) -> OfxDateTime {
    OfxDateTime::from_parts(y, mo, d, h, mi, s, ms, off).unwrap()
}

fn ok_with_rest(input: &str, expected: OfxDateTime, rest: &str) {
    let (value, consumed_to) = parse_datetime(input).unwrap();
    assert_eq!(value, expected);
    assert_eq!(&input[consumed_to..], rest);
}

#[test]
fn datetime_eof_is_incomplete() {
    assert_eq!(parse_datetime(""), Err(Error::ParseIncomplete));
}

#[test]
fn datetime_year_only_is_incomplete() {
    assert_eq!(parse_datetime("2025"), Err(Error::ParseIncomplete));
}

#[test]
fn datetime_year_month_is_incomplete() {
    assert_eq!(parse_datetime("202501"), Err(Error::ParseIncomplete));
}

#[test]
fn datetime_date_only_is_midnight_utc() {
    ok_with_rest("20250101", dt(2025, 1, 1, 0, 0, 0, 0, 0), "");
}

#[test]
fn datetime_two_trailing_digits_are_remainder() {
    ok_with_rest("2025010100", dt(2025, 1, 1, 0, 0, 0, 0, 0), "00");
}

#[test]
fn datetime_four_trailing_digits_are_remainder() {
    ok_with_rest("202501010000", dt(2025, 1, 1, 0, 0, 0, 0, 0), "0000");
}

#[test]
fn datetime_full_time_block() {
    ok_with_rest("20250101000000", dt(2025, 1, 1, 0, 0, 0, 0, 0), "");
}

#[test]
fn datetime_bare_dot_is_remainder() {
    ok_with_rest("20250101000000.", dt(2025, 1, 1, 0, 0, 0, 0, 0), ".");
}

#[test]
fn datetime_milliseconds() {
    ok_with_rest("20250102030405.006", dt(2025, 1, 2, 3, 4, 5, 6, 0), "");
}

#[test]
fn datetime_offset_without_milliseconds() {
    ok_with_rest("20250102030405[-5]", dt(2025, 1, 2, 3, 4, 5, 0, -5), "");
}

#[test]
fn datetime_offset_no_name() {
    ok_with_rest("20250102030405.006[-5]", dt(2025, 1, 2, 3, 4, 5, 6, -5), "");
}

#[test]
fn datetime_offset_with_name() {
    ok_with_rest("20250102030405.006[-5:EST]", dt(2025, 1, 2, 3, 4, 5, 6, -5), "");
}

#[test]
fn datetime_offset_with_whitespace() {
    ok_with_rest("20250102030405.006 [ -5 ]", dt(2025, 1, 2, 3, 4, 5, 6, -5), "");
}

#[test]
fn datetime_offset_with_name_and_whitespace() {
    ok_with_rest("20250102030405.006 [ -5 : EST ]", dt(2025, 1, 2, 3, 4, 5, 6, -5), "");
}

#[test]
fn datetime_offset_with_plus() {
    ok_with_rest("20250102030405.006[+2:CET]", dt(2025, 1, 2, 3, 4, 5, 6, 2), "");
}

#[test]
fn datetime_same_instant_with_and_without_zone_name_are_equal() {
    let (a, _) = parse_datetime("20250102030405.006[-5]").unwrap();
    let (b, _) = parse_datetime("20250102030405.006[-5:EST]").unwrap();
    assert_eq!(a, b);
}

#[test]
fn datetime_equal_instants_across_offsets_are_equal() {
    // 03:04 at UTC-5 is 10:04 at UTC+2 on the same day.
    let (a, _) = parse_datetime("20250102030405.006[-5]").unwrap();
    let (b, _) = parse_datetime("20250102100405.006[+2]").unwrap();
    assert_eq!(a, b);
}

#[test]
fn datetime_hour_sixty_is_rejected_by_the_calendar() {
    assert!(matches!(parse_datetime("20250101600000"), Err(Error::ParseError(_))));
}

#[test]
fn datetime_hour_sixty_one_is_rejected_by_the_grammar() {
    assert!(matches!(parse_datetime("20250101610000"), Err(Error::ParseError(_))));
}

#[test]
fn datetime_month_thirteen_is_a_parse_error() {
    assert!(matches!(parse_datetime("20251301"), Err(Error::ParseError(_))));
}

#[test]
fn datetime_day_thirty_one_in_a_thirty_day_month() {
    assert!(matches!(parse_datetime("20250431"), Err(Error::ParseError(_))));
}

#[test]
fn datetime_february_twenty_nine_only_in_leap_years() {
    assert!(matches!(parse_datetime("20250229"), Err(Error::ParseError(_))));
    ok_with_rest("20240229", dt(2024, 2, 29, 0, 0, 0, 0, 0), "");
}

#[test]
fn datetime_offset_out_of_range_is_a_parse_error() {
    assert!(matches!(parse_datetime("20250102030405[-13]"), Err(Error::ParseError(_))));
    assert!(matches!(parse_datetime("20250102030405[15]"), Err(Error::ParseError(_))));
}

#[test]
fn datetime_unterminated_offset_is_incomplete() {
    assert_eq!(parse_datetime("20250102030405["), Err(Error::ParseIncomplete));
    assert_eq!(parse_datetime("20250102030405[-5:EST"), Err(Error::ParseIncomplete));
}

#[test]
fn datetime_leading_whitespace_is_skipped() {
    ok_with_rest("  20250101", dt(2025, 1, 1, 0, 0, 0, 0, 0), "");
}
