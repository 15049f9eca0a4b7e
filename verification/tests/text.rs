use ulendo::text;

#[test]
fn decimal_of_numbers() {
    assert_eq!(text::decimal(0), "0");
    assert_eq!(text::decimal(1234567), "1234567");
    assert_eq!(text::decimal(-42), "-42");
    assert_eq!(text::decimal(i64::MIN), "-9223372036854775808");
    assert_eq!(text::decimal_unsigned(u64::MAX as u128 + 1), "18446744073709551616");
}

#[test]
fn numbers_are_read_as_std_reads_them() {
    for s in ["", "+", "-", "0", "007", "+12", "-12", "--1", "+-1", "1 ", "65535", "65536", "x", "9223372036854775807",
        "9223372036854775808", "-9223372036854775808", "-9223372036854775809", "-0"]
    {
        assert_eq!(text::parse_signed(s), s.parse::<i64>().ok(), "{s:?}");
        assert_eq!(text::parse_unsigned(s, 65535), s.parse::<u16>().ok().map(|n| n as u64), "{s:?}");
        if !s.starts_with('-') {
            assert_eq!(text::parse_unsigned(s, u64::MAX), s.parse::<u64>().ok(), "{s:?}");
        }
    }
    assert_eq!(text::parse_unsigned("18446744073709551615", u64::MAX), Some(u64::MAX));
    assert_eq!(text::parse_unsigned("18446744073709551616", u64::MAX), None);
}

#[test]
fn searching() {
    assert!(text::contains_char("a@b", '@'));
    assert!(!text::contains_char("", '@'));
    assert!(text::contains_text("abcabd", "abd"));
    assert!(text::contains_text("abc", ""));
    assert!(!text::contains_text("abc", "abcd"));
    assert!(text::starts_with("https://x", "https://"));
    assert!(!text::starts_with("http", "https://"));
    assert_eq!(text::strip_prefix("Nostr abc", "Nostr "), Some("abc".to_string()));
    assert_eq!(text::strip_prefix("nostr abc", "Nostr "), None);
    assert_eq!(text::split_once("a@b@c", '@'), Some(("a".to_string(), "b@c".to_string())));
    assert_eq!(text::split_once("abc", '@'), None);
}

#[test]
fn rewriting() {
    assert_eq!(text::remove_char("1,234,567", ','), "1234567");
    assert_eq!(text::trim("\u{a0} \tname\u{3000}\n"), "name");
    assert_eq!(text::trim(" \n "), "");
    assert_eq!(text::to_ascii_uppercase("aZ-ß"), "AZ-ß");
    assert_eq!(text::split_trimmed(" a ,b,, c", ','), vec!["a", "b", "", "c"]);
    assert_eq!(text::split_trimmed("", ','), vec![""]);
}

#[test]
fn bytes_and_characters() {
    assert_eq!(text::len_in_bytes("héé"), 5);
    assert!(text::can_cut("héé", 3));
    assert!(!text::can_cut("héé", 2));
    assert!(!text::can_cut("abc", 4));
    assert_eq!(text::cut("héé", 3), "hé");
}
