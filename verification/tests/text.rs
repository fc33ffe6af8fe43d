use ride_mode::text::{join, str_eq};

#[test]
fn str_eq_compares_content() {
    assert!(str_eq("", ""));
    assert!(str_eq("glide", "glide"));
    assert!(!str_eq("glide", "glid"));
    assert!(!str_eq("glide", "glidE"));
    assert!(str_eq("café", "café"));
    assert!(!str_eq("café", "cafe"));
}

#[test]
fn join_puts_the_separator_between_items() {
    let items = |list: &[&str]| list.iter().map(|s| s.to_string()).collect::<Vec<String>>();
    assert_eq!(join(&items(&[]), ", "), "");
    assert_eq!(join(&items(&["a"]), ", "), "a");
    assert_eq!(join(&items(&["a", "b", "c"]), ", "), "a, b, c");
    assert_eq!(join(&items(&["", ""]), "-"), "-");
    assert_eq!(join(&items(&["x", "y"]), ""), "xy");
}
