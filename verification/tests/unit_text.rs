use desktop_mcp::config::{SecurityConfig, SecurityMode};
use desktop_mcp::utils::text::{
    decimal_string, ends_with, signed_decimal_string, split_str, starts_with, str_contains, trim, parse_integer,
};

#[test]
fn test_split_like_std() {
    for (s, sep) in [("a|||b|||", "|||"), ("||||", "|||"), ("", ","), ("a,b,,c", ","), ("x::y", "::"), ("abc", "abcd")] {
        let expected: Vec<String> = s.split(sep).map(|p| p.to_string()).collect();
        assert_eq!(split_str(s, sep), expected, "{:?} by {:?}", s, sep);
    }
}

#[test]
fn test_trim_like_std() {
    for s in ["  a b  ", "\t\n x \r", "", "   ", "\u{2003}y\u{00a0}", "\u{1680}z\u{205f}"] {
        assert_eq!(trim(s), s.trim(), "{:?}", s);
    }
}

#[test]
fn test_decimal_strings() {
    assert_eq!(decimal_string(0), "0");
    assert_eq!(decimal_string(8443), "8443");
    assert_eq!(decimal_string(u64::MAX), u64::MAX.to_string());
    assert_eq!(signed_decimal_string(-120), "-120");
    assert_eq!(signed_decimal_string(i64::MIN), i64::MIN.to_string());
    assert_eq!(signed_decimal_string(7), "7");
}

#[test]
fn test_search_and_affixes() {
    assert!(str_contains("com.apple.calculator", "apple"));
    assert!(str_contains("abc", ""));
    assert!(!str_contains("ab", "abc"));
    assert!(starts_with("Bearer x", "Bearer "));
    assert!(!starts_with("Bear", "Bearer "));
    assert!(ends_with("Word.app", ".app"));
    assert!(!ends_with("app", ".app"));
}

#[test]
fn test_lowercase_through_policy() {
    let config = SecurityConfig {
        mode: SecurityMode::Allowlist,
        enforce_focus_lock: true,
        allowed_apps: vec!["Äpfel".to_string()],
        blocked_apps: vec![],
    };
    // lowercasing reaches past ASCII: "ÄPFEL" and "Äpfel" name the same application
    assert!(config.is_allowed("ÄPFEL"));
    assert!(config.is_allowed("äpfel"));
    assert!(!config.is_allowed("Apfel"));
}

#[test]
fn test_parse_integer() {
    assert_eq!(parse_integer("0"), Some(0));
    assert_eq!(parse_integer("1234"), Some(1234));
    assert_eq!(parse_integer("-56"), Some(-56));
    assert_eq!(parse_integer("9223372036854775807"), Some(i64::MAX));
    assert_eq!(parse_integer("9223372036854775808"), None);
    assert_eq!(parse_integer("-9223372036854775807"), Some(-i64::MAX));
    assert_eq!(parse_integer(""), None);
    assert_eq!(parse_integer("-"), None);
    assert_eq!(parse_integer("12a"), None);
    assert_eq!(parse_integer(" 1"), None);
}
