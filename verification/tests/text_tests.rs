use ob_cli::text::{
    align_right, center, decimal, parse_u64, repeat, same_text, trim, trunc,
};

#[test]
fn decimal_writes_numbers() {
    assert_eq!(decimal(0), "0");
    assert_eq!(decimal(7), "7");
    assert_eq!(decimal(42161), "42161");
    assert_eq!(decimal(u64::MAX), "18446744073709551615");
}

#[test]
fn parse_u64_accepts_what_std_accepts() {
    for s in ["0", "42161", "+12", "007", "18446744073709551615"] {
        assert_eq!(parse_u64(s), s.parse::<u64>().ok(), "{}", s);
    }
    assert_eq!(parse_u64("42161"), Some(42161));
    assert_eq!(parse_u64("+12"), Some(12));
}

#[test]
fn parse_u64_rejects_what_std_rejects() {
    for s in ["", "+", "-1", "-0", "1a", " 1", "1 ", "18446744073709551616", "99999999999999999999", "١"] {
        assert_eq!(parse_u64(s), None, "{}", s);
        assert!(s.parse::<u64>().is_err());
    }
}

#[test]
fn decimal_reads_back_on_values() {
    for n in [0u64, 9, 10, 99, 100, 42161, u64::MAX] {
        assert_eq!(parse_u64(&decimal(n)), Some(n));
    }
}

#[test]
fn center_matches_the_formatter() {
    for (s, w) in [("abc", 10), ("ab", 9), ("", 4), ("toolong", 3), ("— no asks —", 58)] {
        assert_eq!(center(s, w), format!("{:^w$}", s, w = w));
    }
    assert_eq!(center("ab", 5), " ab  ");
}

#[test]
fn align_right_matches_the_formatter() {
    for (s, w) in [("SIZE", 16), ("PRICE", 10), ("TOTAL (USDC)", 16), ("wide text", 3)] {
        assert_eq!(align_right(s, w), format!("{:>w$}", s, w = w));
    }
}

#[test]
fn repeat_matches_std() {
    assert_eq!(repeat("═", 58), "═".repeat(58));
    assert_eq!(repeat("ab", 3), "ababab");
    assert_eq!(repeat("x", 0), "");
}

#[test]
fn trunc_cuts_by_bytes() {
    assert_eq!(trunc("abcdef", 3), "abc");
    assert_eq!(trunc("abc", 3), "abc");
    assert_eq!(trunc("ab", 46), "ab");
    assert_eq!(trunc("héllo", 3), "hé");
}

#[test]
fn trim_matches_std() {
    for s in ["  abc \n", "\t\u{3000}x y\u{85}", "", "   ", "abc", "\u{a0}a\u{2029}"] {
        assert_eq!(trim(s), s.trim(), "{:?}", s);
    }
}

#[test]
fn same_text_compares() {
    assert!(same_text("0.0", "0.0"));
    assert!(!same_text("0", "0.0"));
    assert!(!same_text("1", "0"));
}
