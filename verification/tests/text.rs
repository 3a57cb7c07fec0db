use markdown2html_converter::{eq_ignore_ascii_case, str_eq, trim};

#[test]
fn trimming_removes_unicode_white_space() {
    assert_eq!("a b", trim("  a b \n"));
    assert_eq!("a", trim("\u{3000}a\u{a0}"));
    assert_eq!("", trim(" \t\r\n"));
    assert_eq!("圖", trim("圖"));
}

#[test]
fn ascii_case_is_ignored_only_for_ascii_letters() {
    assert!(eq_ignore_ascii_case("Rust", "rUST"));
    assert!(!eq_ignore_ascii_case("Rust", "Rus"));
    assert!(!eq_ignore_ascii_case("É", "é"));
    assert!(str_eq("圖", "圖"));
    assert!(!str_eq("a", "A"));
}
