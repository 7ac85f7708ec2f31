use mysqlclient_sys::text::{
    chars_of, find_chars, has_prefix, parse_u32_str, str_eq, trim_bounds, trim_str, white_space,
};

#[test]
fn trim_matches_std() {
    for s in ["", "   ", " a ", "\t\n a b \r\n", "\u{85}x\u{2028}", "\u{200b}x", "x", "\u{3000}\u{a0}"] {
        assert_eq!(trim_str(s), s.trim(), "input {:?}", s);
    }
}

#[test]
fn trim_bounds_of_chars() {
    let v = chars_of("  ab c\t");
    assert_eq!(trim_bounds(&v), (2, 6));
    let v = chars_of(" \n ");
    let (a, b) = trim_bounds(&v);
    assert_eq!(a, b);
}

#[test]
fn white_space_matches_std() {
    for c in ['\t', '\n', '\u{b}', '\u{c}', '\r', ' ', '\u{85}', '\u{a0}', '\u{1680}', '\u{2000}',
              '\u{200a}', '\u{2028}', '\u{2029}', '\u{202f}', '\u{205f}', '\u{3000}', 'a', '\u{200b}',
              '\u{feff}', '0', '\u{1c}'] {
        assert_eq!(white_space(c), c.is_whitespace(), "char {:?}", c);
    }
}

#[test]
fn find_matches_std() {
    let cases = [("hello", "ll"), ("hello", ""), ("", ""), ("", "a"), ("abcabc", "cab"), ("ab", "abc"), ("aaa", "aa")];
    for (s, p) in cases {
        let expected = s.find(p);
        assert_eq!(find_chars(&chars_of(s), &chars_of(p)), expected, "{:?} in {:?}", p, s);
    }
}

#[test]
fn prefix_and_equality() {
    assert!(has_prefix(&chars_of("8.0.36"), &chars_of("8.0")));
    assert!(!has_prefix(&chars_of("8"), &chars_of("8.0")));
    assert!(has_prefix(&chars_of("x"), &chars_of("")));
    assert!(str_eq("variable", "variable"));
    assert!(!str_eq("variable", "variables"));
    assert!(!str_eq("abc", "abd"));
}

#[test]
fn parse_u32_matches_std() {
    let cases = ["0", "42", "+7", "+", "-0", "-1", "", " 1", "1 ", "4294967295", "4294967296",
                 "99999999999999999999", "00012", "1a", "\u{0661}", "++1"];
    for s in cases {
        assert_eq!(parse_u32_str(s), s.parse::<u32>().ok(), "input {:?}", s);
    }
}
