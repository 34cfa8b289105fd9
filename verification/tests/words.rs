use scx_utils::text::chars_of;
use scx_utils::words::{is_whitespace, split_whitespace};

fn by_std(s: &str) -> Vec<String> {
    s.split_whitespace().map(String::from).collect()
}

#[test]
fn flags_are_split_at_white_space() {
    assert_eq!(
        split_whitespace("-I/usr/include -D__TARGET_ARCH_x86 -O2"),
        vec!["-I/usr/include", "-D__TARGET_ARCH_x86", "-O2"]
    );
}

#[test]
fn runs_of_white_space_give_no_empty_word() {
    assert_eq!(split_whitespace("  -g \t\n -O2\r\n"), vec!["-g", "-O2"]);
    assert_eq!(split_whitespace("a\u{a0}b\u{3000}c\u{2003}\u{2028}d"), vec!["a", "b", "c", "d"]);
}

#[test]
fn no_word_in_nothing_but_white_space() {
    assert_eq!(split_whitespace(""), Vec::<String>::new());
    assert_eq!(split_whitespace(" "), Vec::<String>::new());
    assert_eq!(split_whitespace(" \t\r\n\u{b}\u{c}\u{85}\u{1680}\u{202f}\u{205f}"), Vec::<String>::new());
}

#[test]
fn one_word_without_white_space() {
    assert_eq!(split_whitespace("-O2"), vec!["-O2"]);
    assert_eq!(split_whitespace("x"), vec!["x"]);
    assert_eq!(split_whitespace("\u{65e5}\u{672c}\u{8a9e}"), vec!["\u{65e5}\u{672c}\u{8a9e}"]);
}

#[test]
fn characters_that_look_like_space_but_are_none_stay_in_the_word() {
    // Zero width space, Mongolian vowel separator, word joiner, BOM.
    assert_eq!(
        split_whitespace("a\u{200b}b\u{180e}c\u{2060}d\u{feff}e"),
        vec!["a\u{200b}b\u{180e}c\u{2060}d\u{feff}e"]
    );
}

#[test]
fn split_agrees_with_the_standard_library() {
    let samples = [
        "",
        " ",
        "a",
        " a",
        "a ",
        " a ",
        "a b",
        "a  b",
        "\ta\nb\rc\u{b}d\u{c}e",
        "-I/usr/include   -I../include\t-DX=1\n",
        "\u{85}x\u{a0}y\u{1680}z",
        "\u{2000}a\u{2001}b\u{2002}c\u{2003}d\u{2004}e\u{2005}f\u{2006}g\u{2007}h\u{2008}i\u{2009}j\u{200a}k",
        "\u{2028}\u{2029}\u{202f}\u{205f}\u{3000}",
        "a\u{200b}b \u{feff} c\u{180e}d",
        "\u{1f600} \u{65e5}\u{672c} \u{e9}",
    ];
    for s in samples {
        assert_eq!(split_whitespace(s), by_std(s), "{:?}", s);
    }
}

#[test]
fn white_space_is_what_the_standard_library_takes_for_it() {
    let mut count = 0;
    for n in 0..=0x10ffffu32 {
        if let Some(c) = char::from_u32(n) {
            assert_eq!(is_whitespace(c), c.is_whitespace(), "U+{:04X}", n);
            if is_whitespace(c) {
                count += 1;
            }
        }
    }
    assert_eq!(count, 25);
}

#[test]
fn the_characters_of_a_string_come_in_order() {
    assert_eq!(chars_of(""), Vec::<char>::new());
    assert_eq!(chars_of("a\u{e9}\u{65e5}\u{1f600}"), vec!['a', '\u{e9}', '\u{65e5}', '\u{1f600}']);
}

#[test]
fn white_space_between_two_texts_keeps_their_words_apart() {
    let texts = ["", "a", " a b ", "-O2\t-g", "\u{3000}x"];
    for a in texts {
        for b in texts {
            for c in [' ', '\n', '\u{a0}', '\u{2028}'] {
                let whole = format!("{}{}{}", a, c, b);
                let mut parts = split_whitespace(a);
                parts.extend(split_whitespace(b));
                assert_eq!(split_whitespace(&whole), parts, "{:?}", whole);
            }
        }
    }
}

#[test]
fn text_without_white_space_is_one_word() {
    for text in ["-I/usr/include", "x", "a\u{200b}b", "\u{1f600}"] {
        assert_eq!(split_whitespace(text), vec![text]);
    }
}
