use edge_camera::calendar::civil_from_days;
use edge_camera::processor::{
    alloc_capacity, format_iso8601_utc, frees_buffer, process_input, ProcessError, ProcessorInput,
};
use edge_camera::text::{
    decimal_string, is_whitespace, push_signed_zero_padded, push_zero_padded, trim,
    trim_end_matches_char, trim_start_matches_char,
};

#[test]
fn trim_removes_surrounding_whitespace() {
    assert_eq!(trim("  a b \t\n"), "a b");
    assert_eq!(trim("\u{3000}x\u{00A0}"), "x");
    assert_eq!(trim("   "), "");
    assert_eq!(trim(""), "");
    assert_eq!(trim("\u{200B}x"), "\u{200B}x");
}

#[test]
fn trim_matches_std_trim() {
    let samples = ["", " ", "abc", "  abc  ", "\tx y\r\n", "\u{2028}z\u{205F}", "\u{1680}\u{2000}"];
    for s in samples {
        assert_eq!(trim(s), s.trim());
    }
}

#[test]
fn is_whitespace_matches_char_is_whitespace() {
    for c in ['\t', '\n', '\u{000B}', '\u{000C}', '\r', ' ', '\u{0085}', '\u{00A0}', '\u{1680}',
        '\u{2000}', '\u{200A}', '\u{2028}', '\u{2029}', '\u{202F}', '\u{205F}', '\u{3000}', 'a',
        '\u{200B}', '\u{180E}', '0'] {
        assert_eq!(is_whitespace(c), c.is_whitespace(), "{:?}", c);
    }
}

#[test]
fn trim_single_characters() {
    assert_eq!(trim_start_matches_char("//a/b/", '/'), "a/b/");
    assert_eq!(trim_end_matches_char("//a/b//", '/'), "//a/b");
    assert_eq!(trim_start_matches_char("///", '/'), "");
    assert_eq!(trim_end_matches_char("", '/'), "");
}

#[test]
fn decimal_rendering() {
    assert_eq!(decimal_string(0), "0");
    assert_eq!(decimal_string(7), "7");
    assert_eq!(decimal_string(8554), "8554");
    assert_eq!(decimal_string(u128::MAX), u128::MAX.to_string());
}

#[test]
fn zero_padding_matches_format() {
    for (n, w) in [(0u128, 4usize), (5, 2), (123, 3), (12345, 4), (9, 0)] {
        let mut s = String::from("x");
        push_zero_padded(&mut s, n, w);
        assert_eq!(s, format!("x{:0w$}", n, w = w));
    }
    for (n, w) in [(0i64, 4usize), (-5, 4), (-5, 2), (-12345, 4), (42, 2), (i64::MIN, 4), (-1, 0)] {
        let mut s = String::new();
        push_signed_zero_padded(&mut s, n, w);
        assert_eq!(s, format!("{:0w$}", n, w = w));
    }
}

#[test]
fn civil_from_days_known_dates() {
    assert_eq!(civil_from_days(0), (1970, 1, 1));
    assert_eq!(civil_from_days(-1), (1969, 12, 31));
    assert_eq!(civil_from_days(19_723), (2024, 1, 1));
    assert_eq!(civil_from_days(11_016), (2000, 2, 29));
    assert_eq!(civil_from_days(-719_468), (0, 3, 1));
    assert_eq!(civil_from_days(2_932_896), (9999, 12, 31));
}

#[test]
fn civil_from_days_roundtrip_on_a_range() {
    // the day numbers of consecutive days give consecutive dates
    let mut prev = civil_from_days(-1_600_000);
    for days in -1_599_999i64..800_000 {
        let cur = civil_from_days(days);
        let (y, m, d) = prev;
        let leap = y % 4 == 0 && (y % 100 != 0 || y % 400 == 0);
        let dim = [31, if leap { 29 } else { 28 }, 31, 30, 31, 30, 31, 31, 30, 31, 30, 31][(m - 1) as usize];
        let expected = if d < dim { (y, m, d + 1) } else if m < 12 { (y, m + 1, 1) } else { (y + 1, 1, 1) };
        assert_eq!(cur, expected, "{}", days);
        prev = cur;
    }
}

#[test]
fn civil_from_days_before_year_zero() {
    assert_eq!(civil_from_days(-1_157_759), (-1200, 3, 1));
    assert_eq!(civil_from_days(-719_470), (0, 2, 28));
    assert_eq!(civil_from_days(-719_469), (0, 2, 29));
    assert_eq!(civil_from_days(-719_469 - 366 - 365 * 3), (-4, 2, 29));
}

#[test]
fn iso8601_known_instants() {
    assert_eq!(format_iso8601_utc(0), "1970-01-01T00:00:00.000Z");
    assert_eq!(format_iso8601_utc(1_700_000_000_123), "2023-11-14T22:13:20.123Z");
    assert_eq!(format_iso8601_utc(951_782_400_000), "2000-02-29T00:00:00.000Z");
    assert_eq!(format_iso8601_utc(4_102_444_800_999), "2100-01-01T00:00:00.999Z");
    assert_eq!(format_iso8601_utc(253_402_300_800_000), "10000-01-01T00:00:00.000Z");
}

#[test]
fn iso8601_beyond_i64_seconds() {
    assert_eq!(format_iso8601_utc(9_223_372_036_854_775_807_999), "292277026596-12-04T15:30:07.999Z");
    assert_eq!(format_iso8601_utc(u128::MAX), "-224468752944-07-09T02:29:39.455Z");
}

#[test]
fn process_input_keeps_fields_and_stamps_time() {
    let out = process_input(ProcessorInput {
        device_id: "pi4-c922-01".to_string(),
        stream_url: "rtsp://10.0.0.2:8554/cam".to_string(),
        sequence: 42,
        unix_millis: 1_700_000_000_123,
    });
    assert_eq!(out.device_id, "pi4-c922-01");
    assert_eq!(out.stream_url, "rtsp://10.0.0.2:8554/cam");
    assert_eq!(out.sequence, 42);
    assert_eq!(out.unix_millis, 1_700_000_000_123);
    assert_eq!(out.iso8601_utc, "2023-11-14T22:13:20.123Z");
}

#[test]
fn process_error_codes() {
    assert_eq!(ProcessError::NullPointer.code(), -1);
    assert_eq!(ProcessError::InvalidUtf8.code(), -2);
    assert_eq!(ProcessError::InvalidJson.code(), -3);
    assert_eq!(ProcessError::EncodeFailed.code(), -4);
}

#[test]
fn buffer_rules() {
    assert_eq!(alloc_capacity(0), None);
    assert_eq!(alloc_capacity(-3), None);
    assert_eq!(alloc_capacity(16), Some(16));
    assert!(!frees_buffer(true, 4));
    assert!(!frees_buffer(false, 0));
    assert!(frees_buffer(false, 4));
}
