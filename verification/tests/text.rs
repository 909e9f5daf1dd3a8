use docker_mdns::text::{is_whitespace, split_whitespace};

fn words(text: &str) -> Vec<String> {
    text.split_whitespace().map(String::from).collect()
}

#[test]
fn split_on_runs_of_blanks_and_tabs() {
    assert_eq!(split_whitespace("a  b\tc"), vec!["a", "b", "c"]);
}

#[test]
fn split_of_nothing_is_nothing() {
    assert_eq!(split_whitespace(""), Vec::<String>::new());
    assert_eq!(split_whitespace(" "), Vec::<String>::new());
    assert_eq!(split_whitespace(" \t\r\n "), Vec::<String>::new());
}

#[test]
fn split_of_one_word() {
    assert_eq!(split_whitespace("foo.local"), vec!["foo.local"]);
    assert_eq!(split_whitespace("  foo.local"), vec!["foo.local"]);
    assert_eq!(split_whitespace("foo.local\n"), vec!["foo.local"]);
    assert_eq!(split_whitespace("x"), vec!["x"]);
}

#[test]
fn split_keeps_order_and_repetitions() {
    assert_eq!(split_whitespace("b a b"), vec!["b", "a", "b"]);
}

#[test]
fn split_knows_white_space_beyond_ascii() {
    assert_eq!(
        split_whitespace("a\u{3000}b\u{00A0}c\u{2003}\u{2028}d\u{0085}e"),
        vec!["a", "b", "c", "d", "e"]
    );
    // Neither the zero width space nor the byte order mark is white space.
    assert_eq!(split_whitespace("a\u{200B}b"), vec!["a\u{200B}b"]);
    assert_eq!(split_whitespace("a\u{FEFF}b"), vec!["a\u{FEFF}b"]);
}

#[test]
fn split_keeps_characters_of_more_than_one_byte() {
    assert_eq!(split_whitespace("héllo wörld"), vec!["héllo", "wörld"]);
    assert_eq!(split_whitespace("日本 語"), vec!["日本", "語"]);
    assert_eq!(split_whitespace("🦀 🦀🦀"), vec!["🦀", "🦀🦀"]);
}

#[test]
fn split_agrees_with_the_standard_library() {
    let samples = [
        "",
        " ",
        "a",
        " a",
        "a ",
        " a ",
        "a b",
        "a  b",
        "a\tb\nc\r\nd",
        "foo.local bar.local",
        "  leading and trailing  ",
        "\u{000B}vertical\u{000C}feed",
        "thin\u{2009}space\u{200A}hair",
        "narrow\u{202F}no-break\u{205F}math",
        "ogham\u{1680}mark",
        "mongolian\u{180E}vowel",
        "a\u{001C}b\u{001F}c",
    ];
    for sample in samples {
        assert_eq!(split_whitespace(sample), words(sample), "{:?}", sample);
    }
}

#[test]
fn white_space_is_what_the_standard_library_takes_for_it() {
    let mut seen = 0;
    for code in 0..=0x10FFFFu32 {
        if let Some(c) = char::from_u32(code) {
            assert_eq!(is_whitespace(c), c.is_whitespace(), "U+{:04X}", code);
            if is_whitespace(c) {
                seen += 1;
            }
        }
    }
    assert_eq!(seen, 25);
}

#[test]
fn white_space_examples() {
    for c in [' ', '\t', '\n', '\r', '\u{000B}', '\u{000C}', '\u{0085}', '\u{00A0}', '\u{3000}'] {
        assert!(is_whitespace(c));
    }
    for c in ['a', '0', '.', '-', '\u{0000}', '\u{001F}', '\u{200B}', '\u{180E}', '\u{FEFF}'] {
        assert!(!is_whitespace(c));
    }
}
