use downloader_hub::text::{
    chars_equal, chars_of, decimal_chars, find_char, find_char_from, is_text,
    is_text_ignoring_ascii_case, push_all, replace_char, slice_chars, split_chars, trim, whitespace,
};

fn text(v: &[char]) -> String {
    v.iter().collect()
}

#[test]
fn decimal_chars_writes_numbers_as_the_standard_library_does() {
    for n in [0u64, 1, 9, 10, 11, 99, 100, 12345, 50_000_000, u64::MAX - 1, u64::MAX] {
        assert_eq!(text(&decimal_chars(n)), format!("{n}"));
    }
}

#[test]
fn chars_of_gives_the_characters_in_order() {
    assert_eq!(chars_of("héllo"), vec!['h', 'é', 'l', 'l', 'o']);
    assert_eq!(chars_of(""), Vec::<char>::new());
}

#[test]
fn push_all_appends() {
    let mut out = chars_of("ab");
    push_all(&mut out, &chars_of("cd"));
    assert_eq!(text(&out), "abcd");
}

#[test]
fn chars_equal_compares_all_characters() {
    assert!(chars_equal(&chars_of("abc"), &chars_of("abc")));
    assert!(!chars_equal(&chars_of("abc"), &chars_of("abd")));
    assert!(!chars_equal(&chars_of("abc"), &chars_of("ab")));
    assert!(chars_equal(&chars_of(""), &chars_of("")));
    assert!(is_text(&chars_of("true"), "true"));
    assert!(!is_text(&chars_of("True"), "true"));
}

#[test]
fn case_is_ignored_for_ascii_letters_only() {
    assert!(is_text_ignoring_ascii_case(&chars_of("AuDiO"), "audio"));
    assert!(is_text_ignoring_ascii_case(&chars_of("audio"), "AUDIO"));
    assert!(!is_text_ignoring_ascii_case(&chars_of("audi0"), "audio"));
    assert!(!is_text_ignoring_ascii_case(&chars_of("É"), "é"));
    assert!(!is_text_ignoring_ascii_case(&chars_of("[x"), "{x"));
    assert!(!is_text_ignoring_ascii_case(&chars_of("@"), "`"));
}

#[test]
fn find_char_gives_the_first_place_or_the_length() {
    assert_eq!(find_char(&chars_of("a=b=c"), '='), 1);
    assert_eq!(find_char(&chars_of("abc"), '='), 3);
    assert_eq!(find_char(&chars_of(""), '='), 0);
    assert_eq!(find_char_from(&chars_of("a=b=c"), '=', 2), 3);
    assert_eq!(find_char_from(&chars_of("a=b=c"), '=', 4), 5);
}

#[test]
fn slice_chars_takes_a_range() {
    assert_eq!(text(&slice_chars(&chars_of("hello"), 1, 3)), "el");
    assert_eq!(text(&slice_chars(&chars_of("hello"), 2, 2)), "");
}

#[test]
fn whitespace_is_what_the_standard_library_calls_white_space() {
    let mut c = 0u32;
    while c <= 0x10FFFF {
        if let Some(ch) = char::from_u32(c) {
            assert_eq!(whitespace(ch), ch.is_whitespace(), "U+{c:04X}");
        }
        c += 1;
    }
}

#[test]
fn trim_is_what_the_standard_library_trims() {
    for s in [
        "",
        " ",
        "a",
        "  a  ",
        "\t a b \n",
        "\u{a0}x\u{3000}",
        " \u{2003}  ",
        "a  ",
        "  a",
        "\u{200b}a\u{200b}",
        " a b c ",
    ] {
        assert_eq!(text(&trim(&chars_of(s))), s.trim(), "{s:?}");
    }
}

#[test]
fn split_is_what_the_standard_library_splits() {
    for s in ["", " ", "a", "a b", " a  b ", "a b c", "  ", "x=1 y=2", "a\tb c"] {
        let ours: Vec<String> = split_chars(&chars_of(s), ' ').iter().map(|p| text(p)).collect();
        let std: Vec<String> = s.split(' ').map(|p| p.to_string()).collect();
        assert_eq!(ours, std, "{s:?}");
    }
}

#[test]
fn replace_char_replaces_every_occurrence() {
    for s in ["", "+", "a+b", "++a++", "abc"] {
        assert_eq!(text(&replace_char(&chars_of(s), '+', ' ')), s.replace('+', " "));
    }
}
