use screencast::text::{contains, decimal, first_line_with};

#[test]
fn substring_search() {
    assert!(contains("v4l2 loopback", "loopback"));
    assert!(contains("abc", ""));
    assert!(!contains("loopbac", "loopback"));
    assert!(!contains("", "a"));
    assert!(contains("ééloop", "éloop"));
}

#[test]
fn first_line_as_lines_splits() {
    let text = "one\r\ntwo /dev/video4\r\nthree /dev/video4\n";
    assert_eq!(first_line_with(text, "/dev/video4"), Some("two /dev/video4".to_string()));
    assert_eq!(first_line_with(text, "four"), None);
    assert_eq!(first_line_with("", ""), None);
    assert_eq!(first_line_with("\n\nx", ""), Some(String::new()));
    assert_eq!(first_line_with("a\nb\r", "b"), Some("b\r".to_string()));
}

#[test]
fn decimal_rendering() {
    assert_eq!(decimal(0), "0");
    assert_eq!(decimal(42), "42");
    assert_eq!(decimal(u32::MAX), "4294967295");
}
