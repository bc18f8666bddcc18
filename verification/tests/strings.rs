use reddyt::utils::strings::{split_once, str_eq, strip_prefix};

#[test]
fn split_once_at_first_occurrence() {
    assert_eq!(split_once("a:b:c", ':'), Some(("a".to_string(), "b:c".to_string())));
    assert_eq!(split_once(":x", ':'), Some((String::new(), "x".to_string())));
    assert_eq!(split_once("é:ü", ':'), Some(("é".to_string(), "ü".to_string())));
    assert_eq!(split_once("abc", ':'), None);
    assert_eq!(split_once("", ':'), None);
}

#[test]
fn strip_prefix_cases() {
    assert_eq!(strip_prefix("Basic abc", "Basic "), Some("abc"));
    assert_eq!(strip_prefix("Basic", "Basic "), None);
    assert_eq!(strip_prefix("basic abc", "Basic "), None);
    assert_eq!(strip_prefix("x", ""), Some("x"));
}

#[test]
fn str_eq_cases() {
    assert!(str_eq("abc", "abc"));
    assert!(!str_eq("abc", "abd"));
    assert!(!str_eq("abc", "ab"));
    assert!(str_eq("", ""));
}
