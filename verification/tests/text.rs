use smtc2web_dev::text::{
    chars_of, contains, decimal_of, find, is_white_space, join, opt_eq, starts_with, string_of,
    text_eq, trim_bounds,
};

#[test]
fn numbers_are_printed_in_decimal() {
    for n in [0, 9, 10, 99, 100, 5173, 65535, u64::MAX] {
        assert_eq!(decimal_of(n), n.to_string());
        assert_eq!(decimal_of(n).parse::<u64>(), Ok(n));
    }
}

#[test]
fn white_space_is_that_of_unicode() {
    for code in 0..0x11_0000u32 {
        if let Some(c) = char::from_u32(code) {
            assert_eq!(is_white_space(c), c.is_whitespace(), "{:?}", c);
        }
    }
}

#[test]
fn texts_are_trimmed_at_both_ends() {
    for text in ["", " ", " a b ", "\u{3000}x\u{a0}\n", "y"] {
        let chars = chars_of(text);
        let (from, to) = trim_bounds(&chars, 0, chars.len());
        assert_eq!(string_of(&chars, from, to), text.trim());
    }
}

#[test]
fn texts_are_searched_from_the_left() {
    let hay = chars_of("abcabc");
    assert_eq!(find(&hay, &chars_of("bc")), Some(1));
    assert_eq!(find(&hay, &chars_of("")), Some(0));
    assert_eq!(find(&hay, &chars_of("cb")), None);
    assert!(contains(&hay, &chars_of("cab")));
    assert!(!contains(&chars_of("ab"), &hay));
    assert!(starts_with(&hay, &chars_of("abca")));
    assert!(!starts_with(&hay, &chars_of("b")));
}

#[test]
fn texts_are_compared_and_joined() {
    assert!(text_eq("中", "中"));
    assert!(!text_eq("a", "A"));
    assert!(opt_eq(&None, &None));
    assert!(!opt_eq(&None, &Some(String::new())));
    assert!(opt_eq(&Some("a".to_string()), &Some("a".to_string())));
    let list = vec!["a".to_string(), String::new(), "b".to_string()];
    assert_eq!(join(&list, "-"), "a--b");
}
