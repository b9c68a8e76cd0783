use athena::text::{contains, count_words, parse_i32, parse_i64, str_eq, trim, trim_end, trim_end_matches, trim_start_matches};

#[test]
fn trimming_matches_std() {
    for s in ["", "  a b  ", "\u{3000}x\u{85}", "\t\n", "no"] {
        assert_eq!(trim(s), s.trim());
        assert_eq!(trim_end(s), s.trim_end());
    }
    assert_eq!(trim_start_matches("ababc", "ab"), "ababc".trim_start_matches("ab"));
    assert_eq!(trim_end_matches("cabab", "ab"), "cabab".trim_end_matches("ab"));
}

#[test]
fn searching_and_comparing() {
    assert!(contains("hello world", "o w"));
    assert!(contains("x", ""));
    assert!(!contains("hello", "hello!"));
    assert!(str_eq("a", "a"));
    assert!(!str_eq("a", "b"));
    assert_eq!(count_words("  0 *  * * * "), 5);
    assert_eq!(count_words(""), 0);
}

#[test]
fn integers_parse_as_std_does() {
    for s in ["0", "-0", "+7", "-9223372036854775808", "9223372036854775807", "9223372036854775808", "", "-", "+", "1a", " 1", "007"] {
        assert_eq!(parse_i64(s), s.parse::<i64>().ok(), "{}", s);
        assert_eq!(parse_i32(s), s.parse::<i32>().ok(), "{}", s);
    }
    assert_eq!(parse_i32("2147483648"), None);
    assert_eq!(parse_i32("-2147483648"), Some(i32::MIN));
}
