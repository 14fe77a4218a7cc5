use phira::text::{chars_of, contains_text, decimal_text, trim_white_space};

#[test]
fn finds_invalid_token_in_error_text() {
    assert!(contains_text("Error { message: \"invalid token\" }", "invalid token"));
    assert!(!contains_text("Error { message: \"invalid tok\" }", "invalid token"));
    assert!(!contains_text("connection refused", "invalid token"));
}

#[test]
fn substring_edge_cases() {
    assert!(contains_text("abc", ""));
    assert!(contains_text("", ""));
    assert!(!contains_text("ab", "abc"));
    assert!(contains_text("abc", "abc"));
    assert!(contains_text("xxabc", "abc"));
    assert!(contains_text("段位认证", "认证"));
    assert!(!contains_text("aab", "abb"));
}

#[test]
fn chars_of_keeps_order() {
    assert_eq!(chars_of("a段b"), vec!['a', '段', 'b']);
    assert_eq!(chars_of(""), Vec::<char>::new());
}

#[test]
fn decimal_renders_status_codes() {
    assert_eq!(decimal_text(304), "304");
    assert_eq!(decimal_text(0), "0");
    assert_eq!(decimal_text(7), "7");
    assert_eq!(decimal_text(500), "500");
    assert_eq!(decimal_text(65535), "65535");
}

#[test]
fn trim_matches_std() {
    for s in ["  google \n", "", "   ", "\u{3000}x\u{85}", "a b", "\t\r\nzz\u{2029}", "\u{200b}x"] {
        assert_eq!(trim_white_space(s), s.trim());
    }
    assert_eq!(trim_white_space("  google \n"), "google");
    assert_eq!(trim_white_space(" \t "), "");
}
