use r3bar::text::{
    chars_of, decimal_text, digit_char, equal, is_whitespace, join_chars, push_decimal,
    same_chars, slice_of, split_chars, split_words, trim, trim_text,
};

fn chars(s: &str) -> Vec<char> {
    s.chars().collect()
}

fn text(v: &[char]) -> String {
    v.iter().collect()
}

fn samples() -> Vec<&'static str> {
    vec![
        "",
        " ",
        "\n",
        "a",
        " a",
        "a ",
        "  a b  ",
        "\t87\n",
        "one two  three\tfour\nfive",
        "\u{a0}nbsp\u{2003}em\u{3000}",
        "line one\nline two\n",
        "\n\nleading",
        "no newline",
        "trailing spaces   \n   ",
        "/dev/sda1  50G  20G  30G  42% /",
    ]
}

#[test]
fn whitespace_is_the_unicode_property() {
    for v in 0..=0x10FFFFu32 {
        if let Some(c) = char::from_u32(v) {
            assert_eq!(is_whitespace(c), c.is_whitespace(), "U+{:04X}", v);
        }
    }
}

#[test]
fn chars_of_gives_the_characters_in_order() {
    for s in samples() {
        assert_eq!(chars_of(s), chars(s));
    }
    assert_eq!(chars_of("h\u{e9}llo"), vec!['h', '\u{e9}', 'l', 'l', 'o']);
}

#[test]
fn slice_of_takes_a_range() {
    let v = chars("abcdef");
    assert_eq!(slice_of(&v, 0, 6), v);
    assert_eq!(slice_of(&v, 2, 4), chars("cd"));
    assert_eq!(slice_of(&v, 3, 3), chars(""));
}

#[test]
fn trim_agrees_with_the_standard_library() {
    for s in samples() {
        assert_eq!(text(&trim(&chars(s))), s.trim(), "{:?}", s);
        assert_eq!(trim_text(s), s.trim(), "{:?}", s);
    }
    assert_eq!(trim_text("  87 \n"), "87");
    assert_eq!(trim_text(" \t\n"), "");
}

#[test]
fn split_agrees_with_the_standard_library() {
    for s in samples() {
        for sep in ['\n', ' ', 'a'] {
            let got: Vec<String> = split_chars(&chars(s), sep).iter().map(|p| text(p)).collect();
            let expected: Vec<String> = s.split(sep).map(|p| p.to_string()).collect();
            assert_eq!(got, expected, "{:?} at {:?}", s, sep);
        }
    }
    let got: Vec<String> = split_chars(&chars("a\nb\n"), '\n').iter().map(|p| text(p)).collect();
    assert_eq!(got, vec!["a", "b", ""]);
    assert_eq!(split_chars(&chars(""), '\n'), vec![Vec::<char>::new()]);
}

#[test]
fn words_agree_with_the_standard_library() {
    for s in samples() {
        let got: Vec<String> = split_words(&chars(s)).iter().map(|p| text(p)).collect();
        let expected: Vec<String> = s.split_whitespace().map(|p| p.to_string()).collect();
        assert_eq!(got, expected, "{:?}", s);
    }
    let got: Vec<String> = split_words(&chars("  a  bc d ")).iter().map(|p| text(p)).collect();
    assert_eq!(got, vec!["a", "bc", "d"]);
}

#[test]
fn join_agrees_with_the_standard_library() {
    let lists: Vec<Vec<&str>> =
        vec![vec![], vec![""], vec!["a"], vec!["a", "b"], vec!["", "", ""], vec!["/ 42%", "/home 7%"]];
    for list in lists {
        for sep in ["", "  ", ", "] {
            let parts: Vec<Vec<char>> = list.iter().map(|p| chars(p)).collect();
            assert_eq!(text(&join_chars(&parts, &chars(sep))), list.join(sep));
        }
    }
    let parts = vec![chars("/ 42%"), chars("/home 7%")];
    assert_eq!(text(&join_chars(&parts, &chars("  "))), "/ 42%  /home 7%");
}

#[test]
fn decimal_agrees_with_the_standard_library() {
    for n in [0u32, 1, 9, 10, 11, 19, 20, 21, 99, 100, 101, 12345, 4_000_000_000, u32::MAX] {
        assert_eq!(decimal_text(n), n.to_string());
    }
    assert_eq!(decimal_text(0), "0");
    assert_eq!(decimal_text(4294967295), "4294967295");
    let mut out = chars("n=");
    push_decimal(&mut out, 907);
    assert_eq!(text(&out), "n=907");
    for d in 0..10u32 {
        assert_eq!(digit_char(d), char::from_digit(d, 10).unwrap());
    }
}

#[test]
fn concat_and_equal_work_on_texts() {
    assert_eq!(r3bar::text::concat("Bar error: ", "boom"), "Bar error: boom");
    assert_eq!(r3bar::text::concat("", ""), "");
    assert!(equal("default", "default"));
    assert!(!equal("default", "Default"));
    assert!(!equal("1", "11"));
    assert!(equal("", ""));
    assert!(same_chars(&chars("ab"), &chars("ab")));
    assert!(!same_chars(&chars("ab"), &chars("ac")));
    assert!(!same_chars(&chars("ab"), &chars("abc")));
}
