use lminc::text::{
    chars_of, find_either, is_whitespace, line_spans, parse_number, part_spans, piece,
    same_text, trim_span, word_end, word_spans, ParseIntError,
};

fn pieces<'a>(text: &'a str, spans: Vec<(usize, usize)>) -> Vec<&'a str> {
    spans.into_iter().map(|span| piece(text, span)).collect()
}

fn lines(text: &str) -> Vec<&str> {
    pieces(text, line_spans(&chars_of(text)))
}

fn words(text: &str) -> Vec<&str> {
    let chars = chars_of(text);
    pieces(text, word_spans(&chars, chars.len()))
}

fn parts(text: &str, separator: char) -> Vec<&str> {
    pieces(text, part_spans(&chars_of(text), separator))
}

fn trimmed(text: &str) -> &str {
    let chars = chars_of(text);
    piece(text, trim_span(&chars, chars.len()))
}

fn parsed(text: &str, max: u64) -> Result<u64, ParseIntError> {
    parse_number(&chars_of(text), max)
}

#[test]
fn characters() {
    assert_eq!(chars_of("aé日\u{1f600}"), vec!['a', 'é', '日', '\u{1f600}']);
    assert_eq!(chars_of(""), Vec::<char>::new());
    assert_eq!(piece("aé日\u{1f600}b", (1, 4)), "é日\u{1f600}");
    assert_eq!(piece("abc", (2, 2)), "");
    assert!(same_text("aé", "aé"));
    assert!(!same_text("aé", "ae"));
    assert!(!same_text("a", "ab"));
    assert!(same_text("", ""));
}

#[test]
fn white_space_is_what_the_language_says() {
    for code in 0..=0x10ffff_u32 {
        if let Some(character) = char::from_u32(code) {
            assert_eq!(
                is_whitespace(character),
                character.is_whitespace(),
                "{code:x}"
            );
        }
    }
}

#[test]
fn lines_like_the_language() {
    for text in [
        "",
        "\n",
        "a",
        "a\n",
        "a\nb",
        "a\n\nb\n",
        "\n\n",
        "a\r\nb\r\n",
        "a\rb\n",
        "a\r",
        "\r\n",
        "\r\r\n",
        "a\n\r",
        "é\r\n日\n",
    ] {
        assert_eq!(lines(text), text.lines().collect::<Vec<_>>(), "{text:?}");
    }
    assert_eq!(lines("a\r\nb\n\nc"), vec!["a", "b", "", "c"]);
}

#[test]
fn words_like_the_language() {
    for text in [
        "",
        " ",
        "a",
        " a ",
        "a b",
        "\ta\u{a0}b\u{3000}c\r\n",
        "  ab   cd  ",
        "é 日",
    ] {
        assert_eq!(
            words(text),
            text.split_whitespace().collect::<Vec<_>>(),
            "{text:?}"
        );
    }
    assert_eq!(words(" loop  ADD\tone "), vec!["loop", "ADD", "one"]);
    // Only the given number of characters is looked at
    let chars = chars_of("ab cd ef");
    assert_eq!(word_spans(&chars, 4), vec![(0, 2), (3, 4)]);
    assert_eq!(word_end(&chars, 3, 8), 5);
    assert_eq!(word_end(&chars, 3, 4), 4);
    assert_eq!(word_end(&chars, 2, 8), 2);
    assert_eq!(word_end(&chars, 8, 8), 8);
}

#[test]
fn parts_like_the_language() {
    for text in ["", ";", "a", "a;b", ";a;", "a;;b", ";;;"] {
        assert_eq!(
            parts(text, ';'),
            text.split(';').collect::<Vec<_>>(),
            "{text:?}"
        );
    }
    assert_eq!(parts("1,2,,3", ','), vec!["1", "2", "", "3"]);
}

#[test]
fn trim_like_the_language() {
    for text in ["", " ", "a", " a", "a ", "  a b  ", "\t\r\n", "\u{a0}é\u{3000}"] {
        assert_eq!(trimmed(text), text.trim(), "{text:?}");
    }
}

#[test]
fn find_characters() {
    let chars = chars_of("ab#cd;ef");
    assert_eq!(find_either(&chars, 0, '#', ';'), 2);
    assert_eq!(find_either(&chars, 2, '#', ';'), 2);
    assert_eq!(find_either(&chars, 3, '#', ';'), 5);
    assert_eq!(find_either(&chars, 6, '#', ';'), 8);
    assert_eq!(find_either(&chars, 8, '#', ';'), 8);
    assert_eq!(find_either(&chars, 0, 'x', 'y'), 8);
}

#[test]
fn numbers_like_the_language() {
    for text in [
        "0", "7", "42", "999", "1000", "65535", "65536", "+5", "+", "-", "-5", "", " 5", "5 ",
        "0x10", "1e3", "00000000000000000001", "99999999999999999999999", "+0065535", "++5",
        "5+", "٣",
    ] {
        assert_eq!(
            parsed(text, 0xffff).ok(),
            text.parse::<u16>().ok().map(u64::from),
            "{text:?}"
        );
        assert_eq!(
            parsed(text, 0xffff_ffff).ok(),
            text.parse::<u32>().ok().map(u64::from),
            "{text:?}"
        );
    }
    assert_eq!(parsed("4294967295", 0xffff_ffff), Ok(4294967295));
}

#[test]
fn number_errors() {
    assert_eq!(parsed("", 999), Err(ParseIntError::Empty));
    assert_eq!(parsed("+", 999), Err(ParseIntError::InvalidDigit));
    assert_eq!(parsed("-1", 999), Err(ParseIntError::InvalidDigit));
    assert_eq!(parsed("12a", 999), Err(ParseIntError::InvalidDigit));
    assert_eq!(parsed("1000", 999), Err(ParseIntError::PosOverflow));
    assert_eq!(parsed("999", 999), Ok(999));
    assert_eq!(
        parsed("99999999999999999999999999", 0xffff_ffff),
        Err(ParseIntError::PosOverflow)
    );
    // A character that is no digit counts before the size does
    assert_eq!(
        parsed("99999999999999999999999999x", 0xffff_ffff),
        Err(ParseIntError::InvalidDigit)
    );
}
