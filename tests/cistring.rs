use pointercrate::cistring::{CiStr, CiString};
use std::cmp::Ordering;

#[test]
fn equality_ignores_case() {
    let a = CiString::from("Hello".to_string());
    let b = CiString("hELLO".to_string());
    assert!(a == b);
    assert!(a.ci_eq(&b));
    assert!(a != CiString("help".to_string()));
    assert!(CiStr::from_str("ABC").eq_string(&CiString("abc".to_string())));
    assert!(CiStr::from_str("ABC").ci_eq(&CiStr::from_str("aBc")));
}

#[test]
fn order_ignores_case() {
    let a = CiString("apple".to_string());
    let b = CiString("BANANA".to_string());
    assert_eq!(a.ci_cmp(&b), Ordering::Less);
    assert_eq!(a.partial_cmp(&b), Some(Ordering::Less));
    assert_eq!(CiString("Zed".to_string()).ci_cmp(&CiString("zed".to_string())), Ordering::Equal);
    assert_eq!(CiString("ab".to_string()).ci_cmp(&CiString("A".to_string())), Ordering::Greater);
    assert_eq!(CiStr::from_str("b").ci_cmp(&CiStr::from_str("AB")), Ordering::Greater);
}

#[test]
fn keeps_given_text() {
    let a = CiString("MiXeD".to_string());
    assert_eq!(a.as_str(), "MiXeD");
    assert_eq!(a.to_display_string(), "MiXeD");
    assert_eq!(a.as_ci_str().to_owned().into_string(), "MiXeD");
}

#[test]
fn borrowed_form_compares_like_owned() {
    let a = CiStr::from_str("Straße");
    assert!(a == CiStr::from_str("STRAßE"));
    assert!(CiStr::from_str("Q") == CiString("q".to_string()));
    assert_eq!(CiStr::from_str("b").partial_cmp(&CiStr::from_str("A")), Some(Ordering::Greater));
}

#[test]
fn compare_chars_orders_by_character() {
    assert_eq!(pointercrate::cistring::compare_chars("abc", "abd"), Ordering::Less);
    assert_eq!(pointercrate::cistring::compare_chars("abc", "ab"), Ordering::Greater);
    assert_eq!(pointercrate::cistring::compare_chars("", ""), Ordering::Equal);
    assert_eq!(pointercrate::cistring::compare_chars("B", "a"), Ordering::Less);
}
