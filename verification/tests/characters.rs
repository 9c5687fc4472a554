use synology_chat::decimal::{decimal_text, parse_u64};
use synology_chat::text::{
    chars_of, position_from, separates_words, skip_from, text_between, words_from,
};

#[test]
fn white_space_is_that_of_unicode() {
    for c in '\u{0}'..=char::MAX {
        assert_eq!(separates_words(c), c.is_whitespace(), "{:?}", c);
    }
}

#[test]
fn words_are_split_at_white_space() {
    for text in ["", " ", "a", " a  b ", "x\u{a0}y\u{2003}z", "\u{1f600} \u{e9}", "a\u{200b}b"] {
        let expected: Vec<String> = text.split_whitespace().map(String::from).collect();
        let list = words_from(&chars_of(text), 0);
        assert_eq!(list, expected);
        let kept: String = text.chars().filter(|c| !c.is_whitespace()).collect();
        assert_eq!(list.concat(), kept);
    }
}

#[test]
fn positions() {
    let chars = chars_of("//a/b c");
    assert_eq!(position_from(&chars, 0, ' '), 5);
    assert_eq!(position_from(&chars, 6, ' '), 7);
    assert_eq!(skip_from(&chars, 0, 5, '/'), 2);
    assert_eq!(skip_from(&chars, 0, 1, '/'), 1);
    assert_eq!(text_between(&chars, 2, 5), "a/b");
    assert_eq!(text_between(&chars, 2, 2), "");
}

#[test]
fn numbers_are_written_in_decimal() {
    for number in [0, 9, 10, 42, 100, 18446744073709551615] {
        assert_eq!(decimal_text(number), number.to_string());
        assert_eq!(parse_u64(&chars_of(&decimal_text(number))), Some(number));
    }
}

#[test]
fn numbers_are_read() {
    for (text, number) in [
        ("0", Some(0)),
        ("007", Some(7)),
        ("+5", Some(5)),
        ("18446744073709551615", Some(u64::MAX)),
        ("018446744073709551615", Some(u64::MAX)),
        ("18446744073709551616", None),
        ("99999999999999999999999", None),
        ("", None),
        ("+", None),
        ("++5", None),
        ("-0", None),
        (" 5", None),
        ("5 ", None),
        ("5a", None),
        ("0x5", None),
        ("\u{665}", None),
    ] {
        assert_eq!(parse_u64(&chars_of(text)), number, "{:?}", text);
        assert_eq!(text.parse::<u64>().ok(), number, "{:?}", text);
    }
}
