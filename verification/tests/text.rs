use parceltracker::carriers::amazon::{humanize, map_status};
use parceltracker::text::{
    chars_contain, concat3, i64_decimal, keep_ascii_alphanumerics, parse_usize, remove_char, replace_char,
    split_first_space, str_contains, str_eq, u128_decimal,
};

#[test]
fn parses_positions_like_usize() {
    assert_eq!(parse_usize("12"), Some(12));
    assert_eq!(parse_usize("+7"), Some(7));
    assert_eq!(parse_usize("007"), Some(7));
    assert_eq!(parse_usize(""), None);
    assert_eq!(parse_usize("-1"), None);
    assert_eq!(parse_usize("1Z"), None);
    assert_eq!(parse_usize(" 1"), None);
    assert_eq!(parse_usize("+"), None);
    assert_eq!(parse_usize("99999999999999999999999"), None);
}

#[test]
fn decimals() {
    assert_eq!(u128_decimal(0), "0");
    assert_eq!(u128_decimal(1234567890), "1234567890");
    assert_eq!(i64_decimal(-42), "-42");
    assert_eq!(i64_decimal(i64::MIN), "-9223372036854775808");
}

#[test]
fn string_helpers() {
    assert_eq!(remove_char("1 2 3", ' '), "123");
    assert_eq!(replace_char("OUT_FOR_X", '_', ' '), "OUT FOR X");
    assert_eq!(keep_ascii_alphanumerics("out-for delivery!"), "outfordelivery");
    assert!(str_contains("in transit", "transit"));
    assert!(!str_contains("in", "transit"));
    assert!(chars_contain(&"abc".chars().collect(), &vec![]));
    assert!(str_eq("a", "a"));
    assert!(!str_eq("a", "b"));
    assert_eq!(concat3("a", "b", "c"), "abc");
}

#[test]
fn splits_at_first_space() {
    assert_eq!(split_first_space("a b c"), ("a".to_string(), Some("b c".to_string())));
    assert_eq!(split_first_space("abc"), ("abc".to_string(), None));
}

#[test]
fn humanized_codes() {
    assert_eq!(humanize("OUT_FOR_DELIVERY"), "Out for delivery");
    assert_eq!(humanize("ÄRGER_X"), "Ärger x");
    assert_eq!(humanize("ßa"), "SSa");
    assert_eq!(humanize(""), "");
}

#[test]
fn mapped_statuses() {
    assert_eq!(map_status("DELIVERED"), "Delivered");
    assert_eq!(map_status("delivered_to_neighbor"), "Delivered");
    assert_eq!(map_status("UNDELIVERABLE"), "Exception");
    assert_eq!(map_status("OUT_FOR_DELIVERY"), "OutForDelivery");
    assert_eq!(map_status("Created"), "InfoReceived");
    assert_eq!(map_status("RETURNED"), "Exception");
    assert_eq!(map_status(""), "InTransit");
    assert_eq!(map_status("SOMETHING_ELSE"), "InTransit");
}

#[test]
fn trims_unicode_white_space() {
    assert_eq!(parceltracker::text::trim("\u{3000} a b \n\u{85}"), "a b");
    assert_eq!(parceltracker::text::trim("\u{200b}x\u{200b}"), "\u{200b}x\u{200b}");
    assert_eq!(parceltracker::text::trim(" \t "), "");
    assert_eq!(parceltracker::text::trim(""), "");
}
