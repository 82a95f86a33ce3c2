use launcher_core::text::{contains_text, decimal, eq_ignore_ascii_case, parse_u64, same_text};

#[test]
fn decimal_renders_numbers() {
    assert_eq!(decimal(0), "0");
    assert_eq!(decimal(730), "730");
    assert_eq!(decimal(u64::MAX), "18446744073709551615");
}

#[test]
fn parse_u64_reads_decimal() {
    assert_eq!(parse_u64("0"), Some(0));
    assert_eq!(parse_u64("+17"), Some(17));
    assert_eq!(parse_u64("18446744073709551615"), Some(u64::MAX));
    assert_eq!(parse_u64("18446744073709551616"), None);
    assert_eq!(parse_u64(""), None);
    assert_eq!(parse_u64("+"), None);
    assert_eq!(parse_u64("-1"), None);
    assert_eq!(parse_u64("12a"), None);
    for s in ["0", "+5", "007", "99999999999999999999", "1 2", "x"] {
        assert_eq!(parse_u64(s), s.parse::<u64>().ok());
    }
}

#[test]
fn ascii_case_comparison() {
    assert!(eq_ignore_ascii_case("Steam", "sTEAM"));
    assert!(!eq_ignore_ascii_case("Steam", "Steam2"));
    assert!(!eq_ignore_ascii_case("é", "É"));
    assert!(same_text("abc", "abc"));
    assert!(!same_text("abc", "abd"));
}

#[test]
fn contains_text_finds_infix() {
    assert!(contains_text("a steam.exe b", "steam.exe"));
    assert!(contains_text("abc", ""));
    assert!(contains_text("abc", "abc"));
    assert!(!contains_text("ab", "abc"));
    assert!(!contains_text("steam.ex", "steam.exe"));
    assert!(contains_text("ééx", "éx"));
}
