use crabkit::decimal::{decimal_string, parse_u64};
use crabkit::text::{concat3, ends_with_str, join_strings, lines_of, split_by_char, starts_with_str, str_eq, strip_prefix, trim, trim_end_char, trim_start_char};

#[test]
fn lines_like_std() {
    for s in ["a\nb\r\nc", "a\n\nb\n", "", "\n", "x\r", "one"] {
        let expected: Vec<String> = s.lines().map(|l| l.to_string()).collect();
        assert_eq!(lines_of(s), expected, "{:?}", s);
    }
}

#[test]
fn split_and_trim_like_std() {
    for s in ["a:b::c", ":", "", "abc"] {
        let expected: Vec<String> = s.split(':').map(|l| l.to_string()).collect();
        assert_eq!(split_by_char(s, ':'), expected);
    }
    for s in ["  a b \t", "\u{3000}x\u{85}", "", "   "] {
        assert_eq!(trim(s), s.trim());
    }
    assert_eq!(trim_start_char("::a:", ':'), "a:");
    assert_eq!(trim_end_char("\"x\"\"", '"'), "\"x");
    assert_eq!(strip_prefix("model name\t: x", "model name"), Some("\t: x".to_string()));
    assert_eq!(strip_prefix("mod", "model"), None);
    assert!(starts_with_str("eq_x", "eq_"));
    assert!(ends_with_str("x_eq", "_eq"));
    assert!(!ends_with_str("eq", "_eq"));
    assert_eq!(concat3("a", "b", "c"), "abc");
    assert_eq!(join_strings(&vec!["x".to_string(), "y".to_string()], ", "), "x, y");
    assert_eq!(join_strings(&vec![], ", "), "");
}

#[test]
fn decimal_numbers() {
    assert_eq!(parse_u64("1234"), Some(1234));
    assert_eq!(parse_u64("+7"), Some(7));
    assert_eq!(parse_u64("18446744073709551615"), Some(u64::MAX));
    assert_eq!(parse_u64("18446744073709551616"), None);
    assert_eq!(parse_u64(""), None);
    assert_eq!(parse_u64("-1"), None);
    assert_eq!(parse_u64("1a"), None);
    for n in [0u64, 7, 10, 1234567890, u64::MAX] {
        assert_eq!(decimal_string(n), n.to_string());
    }
}

#[test]
fn str_eq_compares_characters() {
    assert!(str_eq("install", "install"));
    assert!(!str_eq("install", "instal"));
    assert!(!str_eq("abc", "abd"));
    assert!(str_eq("", ""));
    assert!(!str_eq("é", "e"));
}
