use neumusic::text::{
    chars_of, decimal_string, ends_with, failure_text, parse_failure_of, parse_u32, parse_u64, same_text,
    starts_with, trim,
};

#[test]
fn trim_removes_unicode_white_space_at_both_ends() {
    assert_eq!(trim("  \t hello world \n\r"), "hello world");
    assert_eq!(trim("\u{3000}\u{a0}x\u{2009}"), "x");
    assert_eq!(trim("   "), "");
    assert_eq!(trim(""), "");
    assert_eq!(trim("a b"), "a b");
}

#[test]
fn trim_matches_std_trim() {
    for s in ["", " a ", "\u{85}b\u{2028}", "x\u{200b}", "\u{feff}y"] {
        assert_eq!(trim(s), s.trim());
    }
}

#[test]
fn decimal_string_writes_like_format() {
    assert_eq!(decimal_string(0), "0");
    assert_eq!(decimal_string(7), "7");
    assert_eq!(decimal_string(192), "192");
    assert_eq!(decimal_string(48000), "48000");
    assert_eq!(decimal_string(u64::MAX), u64::MAX.to_string());
}

#[test]
fn parse_u64_accepts_what_str_parse_accepts() {
    for s in ["0", "2000", "+15", "007", "18446744073709551615"] {
        assert_eq!(parse_u64(s), s.parse::<u64>().ok());
    }
    assert_eq!(parse_u64("2000"), Some(2000));
    assert_eq!(parse_u64("+15"), Some(15));
    assert_eq!(parse_u64("007"), Some(7));
}

#[test]
fn parse_u64_rejects_what_str_parse_rejects() {
    for s in ["", "+", "-1", " 5", "5 ", "1.5", "abc", "18446744073709551616", "99999999999999999999"] {
        assert_eq!(parse_u64(s), None);
        assert!(s.parse::<u64>().is_err());
    }
}

#[test]
fn parse_u32_bounds() {
    assert_eq!(parse_u32("4294967295"), Some(u32::MAX));
    assert_eq!(parse_u32("4294967296"), None);
    assert_eq!(parse_u32("44100"), Some(44100));
}

#[test]
fn parse_reads_back_decimal_string() {
    for n in [0u64, 1, 9, 10, 99, 100, 12345, u32::MAX as u64, u64::MAX] {
        assert_eq!(parse_u64(&decimal_string(n)), Some(n));
    }
}

#[test]
fn prefix_and_suffix_tests() {
    assert!(starts_with("song.silence.mp3", "song"));
    assert!(!starts_with("so", "song"));
    assert!(ends_with("song.silence.mp3", ".silence.mp3"));
    assert!(!ends_with("song.mp3", ".silence.mp3"));
    assert!(starts_with("x", ""));
    assert!(same_text("Ready", "Ready"));
    assert!(!same_text("Ready", "Read"));
    assert_eq!(chars_of("日本語"), vec!['日', '本', '語']);
}

#[test]
fn parse_failures_are_described_as_std_describes_them() {
    for t in ["", "+", "-1", "12a", "abc", "4294967296", "99999999999x", "1 2", "44100\n48000"] {
        let std_err = t.parse::<u32>().unwrap_err().to_string();
        assert_eq!(failure_text(parse_failure_of(t, u32::MAX as u64)), std_err, "{t:?}");
    }
}
