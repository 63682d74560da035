use chatbox::chars::{
    append_chars, chars_of, copy_range, matches_at, same_chars, search, split_on, string_of,
    strip_trailing_char, trim,
};

fn v(s: &str) -> Vec<char> {
    s.chars().collect()
}

#[test]
fn chars_and_strings_convert_both_ways() {
    assert_eq!(chars_of("aé\n"), vec!['a', 'é', '\n']);
    assert_eq!(chars_of(""), Vec::<char>::new());
    assert_eq!(string_of(&vec!['o', 'k']), "ok");
    assert_eq!(string_of(&chars_of("round trip ✓")), "round trip ✓");
}

#[test]
fn trim_removes_whitespace_at_both_ends_only() {
    assert_eq!(trim(&v("  a b \n\t")), v("a b"));
    assert_eq!(trim(&v("ab")), v("ab"));
    assert_eq!(trim(&v(" \n ")), v(""));
    assert_eq!(trim(&v("")), v(""));
    assert_eq!(trim(&v("\u{a0}x\u{3000}")), v("x"));
}

#[test]
fn search_finds_a_run_anywhere() {
    assert!(search(&v("say /pause now"), &v("/pause")));
    assert!(search(&v("/pause"), &v("/pause")));
    assert!(search(&v("xx/pause"), &v("/pause")));
    assert!(!search(&v("/paus"), &v("/pause")));
    assert!(!search(&v("/pa use"), &v("/pause")));
    assert!(search(&v("abc"), &v("")));
    assert!(search(&v(""), &v("")));
    assert!(!search(&v(""), &v("a")));
}

#[test]
fn matches_at_looks_at_one_place() {
    assert!(matches_at(&v("abcabc"), &v("bc"), 1));
    assert!(matches_at(&v("abcabc"), &v("bc"), 4));
    assert!(!matches_at(&v("abcabc"), &v("bc"), 0));
}

#[test]
fn split_on_cuts_at_every_separator() {
    assert_eq!(split_on(&v("a\nbc\n\nd"), '\n'), vec!["a", "bc", "", "d"]);
    assert_eq!(split_on(&v(""), '\n'), vec![""]);
    assert_eq!(split_on(&v("\n"), '\n'), vec!["", ""]);
    assert_eq!(split_on(&v("abc"), '\n'), vec!["abc"]);
    assert_eq!(split_on(&v("abc\n"), '\n'), vec!["abc", ""]);
}

#[test]
fn split_on_agrees_with_std_split() {
    for text in ["", "x", "\n\n", "one\ntwo", "\nlead", "trail\n", "a\n\nb\n"] {
        let expected: Vec<String> = text.split('\n').map(|l| l.to_string()).collect();
        assert_eq!(split_on(&v(text), '\n'), expected);
        assert_eq!(split_on(&v(text), '\n').join("\n"), text);
    }
}

#[test]
fn strip_trailing_char_removes_the_whole_run() {
    assert_eq!(strip_trailing_char(&v("http://x/v1///"), '/'), v("http://x/v1"));
    assert_eq!(strip_trailing_char(&v("http://x/v1"), '/'), v("http://x/v1"));
    assert_eq!(strip_trailing_char(&v("///"), '/'), v(""));
    assert_eq!(strip_trailing_char(&v(""), '/'), v(""));
}

#[test]
fn copy_range_and_append() {
    assert_eq!(copy_range(&v("hello"), 1, 3), v("el"));
    assert_eq!(copy_range(&v("hello"), 2, 2), v(""));
    let mut s = v("ab");
    append_chars(&mut s, &v("cd"));
    assert_eq!(s, v("abcd"));
}

#[test]
fn same_chars_compares_content() {
    assert!(same_chars(&v("pause"), &v("pause")));
    assert!(!same_chars(&v("pause"), &v("pausE")));
    assert!(!same_chars(&v("pause"), &v("paus")));
    assert!(same_chars(&v(""), &v("")));
}

#[test]
fn whitespace_is_what_std_calls_whitespace() {
    let mut count = 0;
    for code in 0..=0x10ffffu32 {
        if let Some(c) = char::from_u32(code) {
            assert_eq!(chatbox::chars::is_whitespace(c), c.is_whitespace(), "U+{:04X}", code);
            if c.is_whitespace() {
                count += 1;
            }
        }
    }
    assert_eq!(count, 25);
}

#[test]
fn trim_agrees_with_std_trim() {
    for text in [
        "",
        " ",
        "pause",
        "  pause",
        "pause\r\n",
        "\t two words \u{2003}",
        "\u{85}x\u{2028}\u{2029}",
        "\u{200b}zero width is no space\u{200b}",
        " \u{1680}\u{202f}\u{205f} ",
    ] {
        assert_eq!(string_of(&trim(&v(text))), text.trim(), "{:?}", text);
    }
}
