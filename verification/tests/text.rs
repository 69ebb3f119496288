use host_providers::text::{chars_of, is_whitespace, split_at_bar, starts_at, str_equal, trim};

#[test]
fn chars_of_lists_the_characters() {
    assert_eq!(chars_of(""), Vec::<char>::new());
    assert_eq!(chars_of("a\u{444}!"), vec!['a', '\u{444}', '!']);
}

#[test]
fn str_equal_compares_contents() {
    assert!(str_equal("", ""));
    assert!(str_equal("Russian", "Russian"));
    assert!(!str_equal("Russian", "Russia"));
    assert!(!str_equal("abc", "abd"));
    assert!(!str_equal("a", ""));
    assert!(str_equal("\u{444}\u{430}", "\u{444}\u{430}"));
    assert!(!str_equal("\u{444}\u{430}", "\u{444}\u{431}"));
}

#[test]
fn starts_at_finds_a_prefix_at_a_position() {
    let text: Vec<char> = "abcabc".chars().collect();
    let abc: Vec<char> = "abc".chars().collect();
    let empty: Vec<char> = Vec::new();
    assert!(starts_at(&text, 0, &abc));
    assert!(!starts_at(&text, 1, &abc));
    assert!(starts_at(&text, 3, &abc));
    assert!(!starts_at(&text, 4, &abc));
    assert!(!starts_at(&text, 6, &abc));
    assert!(starts_at(&text, 6, &empty));
    assert!(starts_at(&text, 2, &empty));
}

#[test]
fn is_whitespace_agrees_with_unicode_white_space() {
    let mut code: u32 = 0;
    while code <= 0x10FFFF {
        if let Some(c) = char::from_u32(code) {
            assert_eq!(is_whitespace(c), c.is_whitespace(), "U+{:04X}", code);
        }
        code += 1;
    }
}

#[test]
fn trim_removes_white_space_at_both_ends() {
    assert_eq!(trim("  a|b\n"), "a|b");
    assert_eq!(trim("a b"), "a b");
    assert_eq!(trim("\t\r\n x y \u{a0}\u{3000}"), "x y");
    assert_eq!(trim(""), "");
    assert_eq!(trim(" \n\t "), "");
    assert_eq!(trim("x"), "x");
}

#[test]
fn trim_agrees_with_the_standard_trim() {
    for s in ["", " ", "ab", " ab", "ab ", " a b ", "\u{2003}q\u{2028}", "\u{85}\u{1680}w w\u{205f}"] {
        assert_eq!(trim(s), s.trim());
    }
}

#[test]
fn split_at_bar_wants_exactly_one_bar() {
    assert_eq!(split_at_bar("Artist|Title"), Some(("Artist".to_string(), "Title".to_string())));
    assert_eq!(split_at_bar("|Title"), Some((String::new(), "Title".to_string())));
    assert_eq!(split_at_bar("Artist|"), Some(("Artist".to_string(), String::new())));
    assert_eq!(split_at_bar("|"), Some((String::new(), String::new())));
    assert_eq!(split_at_bar(""), None);
    assert_eq!(split_at_bar("no bar"), None);
    assert_eq!(split_at_bar("a|b|c"), None);
    assert_eq!(split_at_bar("||"), None);
    assert_eq!(
        split_at_bar("\u{41a}\u{438}\u{43d}\u{43e}|\u{413}\u{440}\u{443}\u{43f}\u{43f}\u{430}"),
        Some((
            "\u{41a}\u{438}\u{43d}\u{43e}".to_string(),
            "\u{413}\u{440}\u{443}\u{43f}\u{43f}\u{430}".to_string()
        ))
    );
}
