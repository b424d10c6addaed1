use eulesia::text::{is_blank, is_white_space};
use eulesia::time::{Timestamp, MAX_UNIX_SECS, MIN_UNIX_SECS};

fn text(secs: i64, nanos: u32, offset: i32) -> String {
    Timestamp::new(secs, nanos, offset).expect("in range").to_rfc3339()
}

#[test]
fn rfc3339_of_the_epoch() {
    assert_eq!(text(0, 0, 0), "1970-01-01T00:00:00+00:00");
}

#[test]
fn rfc3339_shows_the_offset() {
    assert_eq!(text(0, 0, 7200), "1970-01-01T02:00:00+02:00");
    assert_eq!(text(0, 0, -3600), "1969-12-31T23:00:00-01:00");
}

#[test]
fn rfc3339_writes_subseconds_in_steps() {
    assert_eq!(text(0, 500_000_000, 0), "1970-01-01T00:00:00.500+00:00");
    assert_eq!(text(0, 1_000, 0), "1970-01-01T00:00:00.000001+00:00");
    assert_eq!(text(0, 1, 0), "1970-01-01T00:00:00.000000001+00:00");
}

#[test]
fn rfc3339_of_a_known_instant() {
    assert_eq!(text(1_431_648_000, 0, 10_800), "2015-05-15T03:00:00+03:00");
}

#[test]
fn leap_seconds_only_on_the_last_second_of_a_minute() {
    assert_eq!(text(59, 1_500_000_000, 0), "1970-01-01T00:00:60.500+00:00");
    assert_eq!(text(-1, 1_000_000_000, 0), "1969-12-31T23:59:60+00:00");
    assert!(Timestamp::new(58, 1_000_000_000, 0).is_none());
    assert!(Timestamp::new(-2, 1_000_000_000, 0).is_none());
    assert!(Timestamp::new(59, 2_000_000_000, 0).is_none());
}

#[test]
fn the_range_ends_are_formattable() {
    assert_eq!(text(MAX_UNIX_SECS, 0, 0), "+262142-12-31T23:59:59+00:00");
    assert_eq!(text(MIN_UNIX_SECS, 0, 0), "-262143-01-01T00:00:00+00:00");
    assert_eq!(text(MAX_UNIX_SECS, 999_999_999, 86_399), "+262143-01-01T23:59:58.999999999+24:00");
    assert_eq!(text(MIN_UNIX_SECS, 0, -86_399), "-262144-12-31T00:00:01-24:00");
    assert!(Timestamp::new(MAX_UNIX_SECS + 1, 0, 0).is_none());
    assert!(Timestamp::new(MIN_UNIX_SECS - 1, 0, 0).is_none());
}

#[test]
fn offsets_stay_within_a_day() {
    assert!(Timestamp::new(0, 0, 86_399).is_some());
    assert!(Timestamp::new(0, 0, -86_399).is_some());
    assert!(Timestamp::new(0, 0, 86_400).is_none());
    assert!(Timestamp::new(0, 0, -86_400).is_none());
}

#[test]
fn timestamp_parts_read_back() {
    let t = Timestamp::new(123, 456, -789).unwrap();
    assert_eq!(t.unix_secs(), 123);
    assert_eq!(t.subsec_nanos(), 456);
    assert_eq!(t.offset_secs(), -789);
}

#[test]
fn white_space_agrees_with_std() {
    for n in 0u32..0x11_0000 {
        if let Some(c) = char::from_u32(n) {
            assert_eq!(is_white_space(c), c.is_whitespace(), "code point {n:#x}");
        }
    }
}

#[test]
fn blank_texts() {
    assert!(is_blank(""));
    assert!(is_blank("   \t\n\r"));
    assert!(is_blank("\u{3000}\u{a0}"));
    assert!(!is_blank(" a "));
    assert!(!is_blank("spam"));
}
