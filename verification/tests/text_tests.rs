use grill::text::{
    contains, from_chars, is_whitespace, replace_lf, split_whitespace, starts_with, str_eq,
    to_chars, trim,
};

#[test]
fn whitespace_is_the_unicode_property() {
    let mut n: u32 = 0;
    while n <= 0x10FFFF {
        if let Some(c) = char::from_u32(n) {
            assert_eq!(is_whitespace(c), c.is_whitespace(), "U+{:04X}", n);
        }
        n += 1;
    }
}

#[test]
fn chars_round_trip() {
    let text = "héllo, wörld \u{3000}!";
    let chars = to_chars(text);
    assert_eq!(chars, text.chars().collect::<Vec<char>>());
    assert_eq!(from_chars(&chars), text);
    assert_eq!(from_chars(&Vec::new()), "");
}

#[test]
fn split_whitespace_gives_the_words() {
    assert_eq!(split_whitespace("/task  list"), vec!["/task", "list"]);
    assert_eq!(split_whitespace("  q   chat --verbose\t\n"), vec!["q", "chat", "--verbose"]);
    assert_eq!(split_whitespace("one"), vec!["one"]);
    assert_eq!(split_whitespace(""), Vec::<String>::new());
    assert_eq!(split_whitespace(" \t\r\n"), Vec::<String>::new());
    assert_eq!(split_whitespace("a\u{00A0}b\u{2003}c"), vec!["a", "b", "c"]);
    assert_eq!(split_whitespace("\"two words\""), vec!["\"two", "words\""]);
}

#[test]
fn split_whitespace_agrees_with_std() {
    let samples = [
        "",
        " ",
        "a",
        " a",
        "a ",
        "  a  b  ",
        "/task init demo extra",
        "tab\tseparated\tvalues",
        "line\nbreaks\r\nhere",
        "\u{1680}ogham\u{1680}space",
        "zero\u{200B}width",
    ];
    for text in samples {
        let expected: Vec<String> = text.split_whitespace().map(|w| w.to_string()).collect();
        assert_eq!(split_whitespace(text), expected, "{:?}", text);
    }
}

#[test]
fn trim_takes_whitespace_off_both_ends() {
    assert_eq!(trim("  default \n"), "default");
    assert_eq!(trim("default"), "default");
    assert_eq!(trim("a b"), "a b");
    assert_eq!(trim(" \t "), "");
    assert_eq!(trim(""), "");
    assert_eq!(trim("\u{3000}x\u{2028}"), "x");
    for text in ["", " ", " a b ", "\n\nx", "x\n\n", "\u{85}y\u{85}"] {
        assert_eq!(trim(text), text.trim(), "{:?}", text);
    }
}

#[test]
fn contains_finds_substrings() {
    assert!(contains("q chat", "q chat"));
    assert!(contains("/usr/bin/q chat --fast", "q chat"));
    assert!(contains("abc", ""));
    assert!(contains("", ""));
    assert!(!contains("", "a"));
    assert!(!contains("q  chat", "q chat"));
    assert!(!contains("cha", "chat"));
    assert!(contains("aab", "ab"));
    assert!(contains("xxchat", "chat"));
    for (hay, needle) in [("hello", "ll"), ("hello", "lo"), ("hello", "he"), ("hello", "hex")] {
        assert_eq!(contains(hay, needle), hay.contains(needle));
    }
}

#[test]
fn starts_with_looks_at_the_beginning_only() {
    assert!(starts_with("# Task State", "# Task"));
    assert!(starts_with("abc", ""));
    assert!(starts_with("abc", "abc"));
    assert!(!starts_with("abc", "abcd"));
    assert!(!starts_with(" abc", "abc"));
    assert!(!starts_with("", "a"));
}

#[test]
fn str_eq_compares_characters() {
    assert!(str_eq("", ""));
    assert!(str_eq("/task", "/task"));
    assert!(!str_eq("/task", "/tasks"));
    assert!(!str_eq("/task", "/tusk"));
    assert!(!str_eq("a", ""));
}

#[test]
fn replace_lf_puts_a_carriage_return_before_each_line_feed() {
    assert_eq!(replace_lf("a\nb\n"), "a\r\nb\r\n");
    assert_eq!(replace_lf("no line feed"), "no line feed");
    assert_eq!(replace_lf(""), "");
    assert_eq!(replace_lf("\n\n"), "\r\n\r\n");
    assert_eq!(replace_lf("a\r\nb"), "a\r\r\nb");
    for text in ["x\ny", "\n", "caf\u{e9}\n"] {
        assert_eq!(replace_lf(text), text.replace('\n', "\r\n"));
    }
}
