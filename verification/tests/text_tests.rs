use cadence::text::{
    chars_of, contains_str, first_line_trimmed, from_utf8_lossy, is_white_space_char, non_blank_lines, push_decimal,
    same_text, to_lowercase, trim_str,
};

#[test]
fn trims_unicode_whitespace_like_std() {
    for s in ["", "   ", " a ", "\t\na b\r\n", "\u{3000}x\u{2003}", "\u{85}y\u{A0}", "z\u{200B}"] {
        assert_eq!(trim_str(s), s.trim());
    }
    for c in ['\u{0}', ' ', '\u{1680}', '\u{200A}', '\u{200B}', 'a', '\u{FEFF}', '\u{3000}'] {
        assert_eq!(is_white_space_char(c), c.is_whitespace());
    }
}

#[test]
fn lines_like_std() {
    for s in ["a\nb", "a\r\nb\r\n", "\n\nx", "a\rb", "only", "", " \n\t\n y"] {
        let std_lines: Vec<&str> = s.lines().filter(|l| !l.trim().is_empty()).collect();
        assert_eq!(non_blank_lines(s), std_lines);
    }
    assert_eq!(first_line_trimmed("  one \r\ntwo"), "one");
    assert_eq!(first_line_trimmed(""), "");
}

#[test]
fn contains_and_equality() {
    assert!(contains_str("please sign in now", "sign in"));
    assert!(!contains_str("sign-in", "sign in"));
    assert!(contains_str("abc", ""));
    assert!(!contains_str("ab", "abc"));
    assert!(same_text("é", "é"));
    assert!(!same_text("a", "ab"));
    assert_eq!(chars_of("héllo"), vec!['h', 'é', 'l', 'l', 'o']);
}

#[test]
fn std_conversions() {
    assert_eq!(to_lowercase("Sign IN Ä"), "sign in ä");
    assert_eq!(from_utf8_lossy(b"ok"), "ok");
    assert_eq!(from_utf8_lossy(&[0xe2, 0x82]), "\u{FFFD}");
    let mut s = String::from("n=");
    push_decimal(&mut s, 1200);
    assert_eq!(s, "n=1200");
}
