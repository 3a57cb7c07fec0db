use std::borrow::Cow;

use markdown2html_converter::{has_scheme, hex_digit, hex_octet, percent_decode};

#[test]
fn a_url_without_percent_encoding_is_borrowed() {
    assert_eq!("images/pic.png", percent_decode("images/pic.png"));
    assert!(matches!(percent_decode("images/pic.png"), Cow::Borrowed(_)));
}

#[test]
fn percent_encoded_octets_are_decoded() {
    assert_eq!("a b.png", percent_decode("a%20b.png"));
    assert_eq!("a/b.png", percent_decode("a%2Fb.png"));
    assert_eq!("圖.png", percent_decode("%E5%9C%96.png"));
}

#[test]
fn a_percent_which_is_not_an_escape_is_kept() {
    // A `%` followed by a non-ASCII character used to be sliced at a byte which is not a character boundary.
    assert_eq!("%圖.png", percent_decode("%圖.png"));
    assert_eq!("%zz.png", percent_decode("%zz.png"));
    // `from_str_radix` used to accept a sign, which made this an escape.
    assert_eq!("%+A.png", percent_decode("%+A.png"));
    assert_eq!("100%", percent_decode("100%"));
    assert_eq!("100%2", percent_decode("100%2"));
}

#[test]
fn only_real_schemes_are_detected() {
    assert!(has_scheme("https://magiclen.org/pic.png"));
    assert!(has_scheme("data:image/png;base64,AAAA"));
    assert!(has_scheme("mailto:len@magiclen.org"));
    assert!(!has_scheme("images/pic.png"));
    assert!(!has_scheme("C:/images/pic.png"));
}

#[test]
fn a_url_with_nothing_to_decode_is_borrowed() {
    assert!(matches!(percent_decode("%zz.png"), Cow::Borrowed("%zz.png")));
    assert!(matches!(percent_decode("100%"), Cow::Borrowed("100%")));
    assert!(matches!(percent_decode("100%2"), Cow::Borrowed("100%2")));
    assert!(matches!(percent_decode("%+A.png"), Cow::Borrowed("%+A.png")));
    assert!(matches!(percent_decode("%zz%20.png"), Cow::Owned(_)));
}

#[test]
fn a_decoding_which_is_not_utf8_keeps_the_url() {
    assert!(matches!(percent_decode("%FF.png"), Cow::Borrowed("%FF.png")));
    assert!(matches!(percent_decode("a%20b.png"), Cow::Owned(_)));
}

#[test]
fn hex_digits_are_decoded() {
    assert_eq!(Some(0), hex_digit(b'0'));
    assert_eq!(Some(9), hex_digit(b'9'));
    assert_eq!(Some(10), hex_digit(b'a'));
    assert_eq!(Some(15), hex_digit(b'F'));
    assert_eq!(None, hex_digit(b'g'));
    assert_eq!(None, hex_digit(b'+'));
    assert_eq!(Some(0x2F), hex_octet(b'2', b'F'));
    assert_eq!(Some(0xE5), hex_octet(b'e', b'5'));
    assert_eq!(None, hex_octet(b'+', b'A'));
}

#[test]
fn a_scheme_needs_more_than_one_letter() {
    assert!(!has_scheme("c:pic.png"));
    assert!(has_scheme("ab:pic"));
    assert!(!has_scheme("1a:pic"));
    assert!(!has_scheme(":pic"));
    assert!(has_scheme("svn+ssh://host"));
}
