use doppler::error::{DopplerError, ErrorClass};
use doppler::text::{parse_decimal, ParseNumberError};
use doppler::util::print_util::{seek_bar_at, seek_bar_track_width, truncate_string_and_add_suffix};
use doppler::util::time_util::seconds_to_base60_string;

#[test]
fn base60_below_an_hour() {
    assert_eq!(seconds_to_base60_string(0), "0:00");
    assert_eq!(seconds_to_base60_string(59), "0:59");
    assert_eq!(seconds_to_base60_string(61), "1:01");
    assert_eq!(seconds_to_base60_string(3599), "59:59");
}

#[test]
fn base60_from_an_hour_keeps_minutes_up_to_sixty() {
    assert_eq!(seconds_to_base60_string(3600), "1:60:00");
    assert_eq!(seconds_to_base60_string(3661), "1:01:01");
    assert_eq!(seconds_to_base60_string(7200), "2:60:00");
    assert_eq!(seconds_to_base60_string(7261), "2:01:01");
    assert_eq!(seconds_to_base60_string(36000 + 59), "10:60:59");
}

#[test]
fn truncate_leaves_short_text() {
    assert_eq!(truncate_string_and_add_suffix("hello", 10, None), "hello");
    assert_eq!(truncate_string_and_add_suffix("hello", 5, None), "hello");
    assert_eq!(truncate_string_and_add_suffix("", 0, None), "");
}

#[test]
fn truncate_shortens_and_trims() {
    assert_eq!(truncate_string_and_add_suffix("hello world", 8, None), "hello...");
    assert_eq!(truncate_string_and_add_suffix("hello  world", 10, None), "hello...");
    assert_eq!(truncate_string_and_add_suffix("abcdef", 4, Some("!")), "abc!");
    assert_eq!(truncate_string_and_add_suffix("abcdef", 2, None), "...");
}

#[test]
fn truncate_counts_bytes_but_keeps_characters() {
    // "ééé" takes six bytes; five bytes leave room for two characters.
    assert_eq!(truncate_string_and_add_suffix("ééé", 5, None), "éé...");
    assert_eq!(truncate_string_and_add_suffix("ééé", 6, None), "ééé");
}

#[test]
fn seek_bar_places_marker() {
    assert_eq!(seek_bar_at(2, 5), "|──●───|");
    assert_eq!(seek_bar_at(0, 3), "|●───|");
    assert_eq!(seek_bar_at(5, 5), "|─────●|");
    assert_eq!(seek_bar_at(7, 5), "|───────●|");
    assert_eq!(seek_bar_track_width(10), 8);
    assert_eq!(seek_bar_track_width(1), 0);
}

#[test]
fn parse_decimal_accepts_digits() {
    assert_eq!(parse_decimal("42", u32::MAX as u64), Ok(42));
    assert_eq!(parse_decimal("+7", u32::MAX as u64), Ok(7));
    assert_eq!(parse_decimal("007", u32::MAX as u64), Ok(7));
    assert_eq!(parse_decimal("4294967295", u32::MAX as u64), Ok(4294967295));
}

#[test]
fn parse_decimal_errors_match_std() {
    let max = u32::MAX as u64;
    assert_eq!(parse_decimal("", max), Err(ParseNumberError::Empty));
    assert_eq!(parse_decimal("+", max), Err(ParseNumberError::InvalidDigit));
    assert_eq!(parse_decimal("-1", max), Err(ParseNumberError::InvalidDigit));
    assert_eq!(parse_decimal("12a", max), Err(ParseNumberError::InvalidDigit));
    assert_eq!(parse_decimal("4294967296", max), Err(ParseNumberError::PosOverflow));
    assert_eq!(parse_decimal("99999999999a", max), Err(ParseNumberError::PosOverflow));
    for s in ["", "+", "-1", "12a", "4294967296", " 1", "1 "] {
        let ours = parse_decimal(s, max).map(|v| v as u32);
        let std = s.parse::<u32>();
        assert_eq!(ours.is_ok(), std.is_ok(), "{s}");
        if let (Err(e), Err(se)) = (&ours, &std) {
            assert_eq!(e.message(), se.to_string(), "{s}");
        }
    }
}

#[test]
fn error_messages_and_classes() {
    assert_eq!(DopplerError::SongAlreadyInPlaylist.message(), "Song already in playlist");
    assert_eq!(DopplerError::SongAlreadyInPlaylist.class(), ErrorClass::AlreadyExists);
    assert_eq!(DopplerError::IndexOutOfBounds.class(), ErrorClass::InvalidInput);
    assert_eq!(DopplerError::SongHasNoFile.class(), ErrorClass::InvalidData);
    assert_eq!(DopplerError::NoSuchPlaylist.message(), "No playlist with this id exists");
    assert_eq!(DopplerError::SongWithoutId.message(), "input song has no ID");
}

#[test]
fn truncating_twice_changes_nothing() {
    for (inp, max) in [("a long song name  here", 10usize), ("short", 10), ("abc   def", 7), ("xyz", 3), ("abcdef", 3)] {
        let once = truncate_string_and_add_suffix(inp, max, None);
        assert!(once.len() <= max);
        assert_eq!(truncate_string_and_add_suffix(&once, max, None), once);
    }
    assert_eq!(truncate_string_and_add_suffix("abc   def", 7, None), "abc...");
}
