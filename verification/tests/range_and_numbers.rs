use streamvault::range::parse_range;
use streamvault::text::{chars_of, parse_u64, u64_to_decimal};

fn parse(s: &str) -> Option<u64> {
    let cs = chars_of(s);
    parse_u64(cs.as_slice())
}

#[test]
fn closed_range_is_read() {
    assert_eq!(parse_range("bytes=0-1048575", 52428800), Some((0, 1048575)));
}

#[test]
fn open_range_runs_to_last_byte() {
    assert_eq!(parse_range("bytes=1048576-", 52428800), Some((1048576, 52428799)));
    assert_eq!(parse_range("bytes=0-", 52428800), Some((0, 52428799)));
}

#[test]
fn range_end_beyond_file_is_cut() {
    assert_eq!(parse_range("bytes=10-999999", 100), Some((10, 99)));
}

#[test]
fn range_starting_after_end_is_refused() {
    assert_eq!(parse_range("bytes=50-10", 100), None);
    assert_eq!(parse_range("bytes=100-", 100), None);
    assert_eq!(parse_range("bytes=200-300", 100), None);
}

#[test]
fn malformed_ranges_are_refused() {
    assert_eq!(parse_range("items=0-5", 100), None);
    assert_eq!(parse_range("bytes=", 100), None);
    assert_eq!(parse_range("bytes=abc-5", 100), None);
    assert_eq!(parse_range("bytes=-500", 100), None);
    assert_eq!(parse_range("byte=0-5", 100), None);
    assert_eq!(parse_range("", 100), None);
    assert_eq!(parse_range("bytes=18446744073709551616-", 100), None);
}

#[test]
fn unreadable_range_end_is_malformed() {
    assert_eq!(parse_range("bytes=0-abc", 100), None);
    assert_eq!(parse_range("bytes=5-abc", 100), None);
    assert_eq!(parse_range("bytes=5-6-7", 100), None);
}

#[test]
fn range_without_dash_runs_to_last_byte() {
    assert_eq!(parse_range("bytes=5", 100), Some((5, 99)));
}

#[test]
fn empty_file_has_no_range() {
    for h in ["bytes=0-", "bytes=0-0", "bytes=5-10", "items=1-2", "", "bytes=0-abc"] {
        assert_eq!(parse_range(h, 0), None, "header {:?}", h);
    }
}

#[test]
fn plus_sign_is_accepted_as_by_from_str() {
    assert_eq!(parse_range("bytes=+5-+10", 100), Some((5, 10)));
}

#[test]
fn range_written_then_read_back() {
    for (s, e, size) in [(0u64, 0u64, 1u64), (7, 7, 8), (123, 456789, 1000000), (5, 9, 7)] {
        let header = format!("bytes={}-{}", u64_to_decimal(s), u64_to_decimal(e));
        let cut = e.min(size - 1);
        let expected = if s <= cut { Some((s, cut)) } else { None };
        assert_eq!(parse_range(&header, size), expected);
    }
}

#[test]
fn decimal_spelling() {
    assert_eq!(u64_to_decimal(0), "0");
    assert_eq!(u64_to_decimal(9), "9");
    assert_eq!(u64_to_decimal(10), "10");
    assert_eq!(u64_to_decimal(1234567890), "1234567890");
    assert_eq!(u64_to_decimal(u64::MAX), "18446744073709551615");
}

#[test]
fn decimal_read_back() {
    for n in [0u64, 1, 42, 1000, 52428800, u64::MAX] {
        assert_eq!(parse(&u64_to_decimal(n)), Some(n));
        assert_eq!(parse(&u64_to_decimal(n)), u64_to_decimal(n).parse::<u64>().ok());
    }
}

#[test]
fn parse_u64_agrees_with_std() {
    for s in [
        "", "+", "-", "-1", "+42", "007", "4a", " 4", "18446744073709551615",
        "18446744073709551616", "99999999999999999999", "++1", "0",
    ] {
        assert_eq!(parse(s), s.parse::<u64>().ok(), "input {:?}", s);
    }
}
