use trappo::text::{int_to_string, is_whitespace, split_char, trim, trim_end};

#[test]
fn trim_removes_surrounding_whitespace() {
    assert_eq!(trim("  /var/www/releases/20180924143501\n"), "/var/www/releases/20180924143501");
    assert_eq!(trim_end("a b \n\t"), "a b");
    assert_eq!(trim(""), "");
}

#[test]
fn split_char_keeps_empty_pieces() {
    assert_eq!(split_char("", '\n'), vec![String::new()]);
    assert_eq!(split_char("a\nb", '\n'), vec!["a".to_string(), "b".to_string()]);
    assert_eq!(split_char("a\n", '\n'), vec!["a".to_string(), String::new()]);
}

#[test]
fn int_to_string_writes_decimal() {
    assert_eq!(int_to_string(0), "0");
    assert_eq!(int_to_string(127), "127");
    assert_eq!(int_to_string(-45), "-45");
    assert_eq!(int_to_string(i32::MIN), "-2147483648");
}

#[test]
fn whitespace_is_the_unicode_property() {
    for c in ['\t', '\n', '\u{b}', '\u{c}', '\r', ' ', '\u{85}', '\u{a0}', '\u{1680}', '\u{2000}', '\u{200a}', '\u{2028}', '\u{2029}', '\u{202f}', '\u{205f}', '\u{3000}'] {
        assert!(is_whitespace(c));
        assert_eq!(is_whitespace(c), c.is_whitespace());
    }
    for c in ['a', '0', '\u{8}', '\u{e}', '\u{1f}', '\u{200b}', '\u{feff}', 'é'] {
        assert!(!is_whitespace(c));
        assert_eq!(is_whitespace(c), c.is_whitespace());
    }
    assert_eq!(trim_end("a\u{3000}\u{a0}"), "a");
    assert_eq!(trim("\u{2028}b\u{85}"), "b");
}
