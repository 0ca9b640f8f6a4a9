use voice_ambient::text::{
    chars_of, contains, eq_ignore_ascii_case, get_or_whole, is_whitespace, join_with_spaces,
    parse_i32, parse_u64, push_decimal_pad2, push_padded, trim_str, u64_to_decimal, word_count,
};

#[test]
fn whitespace_matches_std_for_every_char() {
    for u in 0u32..=0x10ffff {
        if let Some(c) = char::from_u32(u) {
            assert_eq!(is_whitespace(c), c.is_whitespace(), "U+{:04X}", u);
        }
    }
}

#[test]
fn trim_matches_std() {
    for s in ["", "   ", "  hello  ", "\u{3000}wide\u{2003}", "a b", "\t\nx\r\n", " \u{a0}y\u{85}"] {
        assert_eq!(trim_str(s), s.trim());
    }
}

#[test]
fn word_count_matches_split_whitespace() {
    for s in ["", " ", "hello world how are you", "  two   words ", "a\tb\nc", "one\u{2028}two"] {
        assert_eq!(word_count(s), s.split_whitespace().count());
    }
}

#[test]
fn parse_u64_matches_std() {
    let cases = [
        "0", "42", "+7", "-1", "", "+", "18446744073709551615", "18446744073709551616",
        " 12", "12 ", "1a", "00012", "+-1", "٣",
    ];
    for s in cases {
        assert_eq!(parse_u64(s), s.parse::<u64>().ok(), "{:?}", s);
    }
}

#[test]
fn parse_i32_matches_std() {
    let cases = [
        "0", "1", "-1", "+5", "-", "+", "", "2147483647", "2147483648", "-2147483648",
        "-2147483649", "x", " 1", "-0", "--1",
    ];
    for s in cases {
        assert_eq!(parse_i32(s), s.parse::<i32>().ok(), "{:?}", s);
    }
}

#[test]
fn decimal_formatting() {
    assert_eq!(u64_to_decimal(0), "0");
    assert_eq!(u64_to_decimal(1234567890), "1234567890");
    assert_eq!(u64_to_decimal(u64::MAX), u64::MAX.to_string());
    let mut s = String::new();
    push_decimal_pad2(&mut s, 7);
    push_decimal_pad2(&mut s, 42);
    push_decimal_pad2(&mut s, 123);
    assert_eq!(s, "0742123");
}

#[test]
fn contains_and_case() {
    assert!(contains("Clipboard error: x", "error"));
    assert!(!contains("Copied to clipboard!", "error"));
    assert!(contains("abc", ""));
    assert!(!contains("ab", "abc"));
    assert!(eq_ignore_ascii_case("TrUe", "true"));
    assert!(!eq_ignore_ascii_case("truee", "true"));
    assert!(!eq_ignore_ascii_case("yes", "true"));
}

#[test]
fn padding_and_joining() {
    let mut s = String::from("[");
    push_padded(&mut s, "--db", 14);
    s.push(']');
    assert_eq!(s, format!("[{:<14}]", "--db"));
    let mut t = String::new();
    push_padded(&mut t, "a-very-long-flag-name", 14);
    assert_eq!(t, "a-very-long-flag-name");
    let parts = vec!["voice-input".to_string(), "--mode".to_string(), "type".to_string()];
    assert_eq!(join_with_spaces(&parts), parts.join(" "));
    assert_eq!(join_with_spaces(&Vec::new()), "");
}

#[test]
fn byte_ranges() {
    let ts = "2026-05-01T14:32:01.123456+00:00";
    assert_eq!(get_or_whole(ts, 11, 19), "14:32:01");
    assert_eq!(get_or_whole("short", 11, 19), "short");
    // 'é' takes two bytes: byte 11 falls inside it.
    let odd = "2026-05-01é14:32:01";
    assert_eq!(get_or_whole(odd, 11, 19), odd.get(11..19).unwrap_or(odd));
    assert_eq!(chars_of("hé"), vec!['h', 'é']);
}
