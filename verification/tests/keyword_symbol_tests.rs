use ross_dsl::error::{ErrorKind, Expectation, Failure, ParserError};
use ross_dsl::keyword::keyword;
use ross_dsl::parser::{alpha_or_underscore1, alphanumeric1, multispace0, multispace1};
use ross_dsl::symbol::{
    symbol, CLOSE_BRACE, CLOSE_PARENTHESIS, COMMA, DOUBLE_QUOTE, EQUAL_SIGN, HASHTAG, OPEN_BRACE,
    OPEN_PARENTHESIS, SEMICOLON, TILDE,
};

const KEYWORDS: [&str; 27] = [
    "let", "const", "send", "from", "to", "if", "do", "match", "event", "producer", "tick",
    "fire", "set", "on", "true", "false", "not", "or", "and", "peripheral", "bcm", "relay",
    "single", "rgb", "rgbw", "double_exclusive", "pub",
];

const SYMBOLS: [char; 10] = [
    SEMICOLON,
    TILDE,
    COMMA,
    OPEN_PARENTHESIS,
    CLOSE_PARENTHESIS,
    OPEN_BRACE,
    CLOSE_BRACE,
    EQUAL_SIGN,
    DOUBLE_QUOTE,
    HASHTAG,
];

fn word_failure<T: std::fmt::Debug>(
    result: Result<(&str, T), Failure>,
) -> (String, ErrorKind, Option<Box<ParserError>>) {
    match result {
        Err(Failure::Recoverable(ParserError::Base { location, kind, child })) => {
            (location, kind, child)
        }
        other => panic!("expected a recoverable failure, found {:?}", other),
    }
}

#[test]
fn keyword_is_taken_from_the_front() {
    for word in KEYWORDS {
        let text = format!("{};input", word);
        assert_eq!(keyword(&text, word), Ok((";input", word)));
    }
}

#[test]
fn another_word_fails_at_the_word() {
    for word in KEYWORDS {
        let (location, kind, child) = word_failure(keyword("asdasd;input", word));
        assert_eq!(location, "asdasd");
        assert_eq!(kind, ErrorKind::Expected(Expectation::Keyword(word)));
        assert_eq!(child, None);
    }
}

#[test]
fn longer_word_is_not_the_keyword() {
    let (location, kind, child) = word_failure(keyword("letter = 1", "let"));
    assert_eq!(location, "letter");
    assert_eq!(kind, ErrorKind::Expected(Expectation::Keyword("let")));
    assert_eq!(child, None);
}

#[test]
fn keyword_before_a_digit_fails_with_the_letter_as_cause() {
    for word in KEYWORDS {
        let (location, kind, child) = word_failure(keyword("123123", word));
        assert_eq!(location, "123123");
        assert_eq!(kind, ErrorKind::Expected(Expectation::Keyword(word)));
        assert_eq!(
            child,
            Some(Box::new(ParserError::Base {
                location: "123123".to_string(),
                kind: ErrorKind::Expected(Expectation::Alpha),
                child: None,
            }))
        );
    }
}

#[test]
fn keyword_in_an_empty_text_fails_with_the_letter_as_cause() {
    for word in KEYWORDS {
        let (location, kind, child) = word_failure(keyword("", word));
        assert_eq!(location, "");
        assert_eq!(kind, ErrorKind::Expected(Expectation::Keyword(word)));
        assert!(matches!(child, Some(_)));
    }
}

#[test]
fn symbol_is_taken_from_the_front() {
    for wanted in SYMBOLS {
        let text = format!("{};input", wanted);
        assert_eq!(symbol(&text, wanted), Ok((";input", wanted)));
    }
}

#[test]
fn another_character_fails_at_the_text() {
    for wanted in SYMBOLS {
        let (location, kind, child) = word_failure(symbol("asdasd", wanted));
        assert_eq!(location, "asdasd");
        assert_eq!(kind, ErrorKind::Expected(Expectation::Symbol(wanted)));
        assert_eq!(child, None);
    }
}

#[test]
fn symbol_in_an_empty_text_fails() {
    for wanted in SYMBOLS {
        let (location, kind, child) = word_failure(symbol("", wanted));
        assert_eq!(location, "");
        assert_eq!(kind, ErrorKind::Expected(Expectation::Symbol(wanted)));
        assert_eq!(child, None);
    }
}

#[test]
fn blank_space_is_spaces_tabs_and_line_ends() {
    assert_eq!(multispace0(" \t\r\n x "), "x ");
    assert_eq!(multispace0("x"), "x");
    assert_eq!(multispace0(""), "");
    assert_eq!(multispace1(" \t\r\n x "), Ok(("x ", " \t\r\n ")));
    let (location, kind, child) = word_failure(multispace1("\u{a0}x"));
    assert_eq!(location, "\u{a0}x");
    assert_eq!(kind, ErrorKind::Expected(Expectation::MultiSpace));
    assert_eq!(child, None);
}

#[test]
fn runs_stop_at_the_first_character_of_another_class() {
    assert_eq!(alpha_or_underscore1("ab_c1 d"), Ok(("1 d", "ab_c")));
    assert_eq!(alphanumeric1("ab1_c"), Ok(("_c", "ab1")));
    assert_eq!(alphanumeric1("äb"), Err(Failure::Recoverable(ParserError::Base {
        location: "äb".to_string(),
        kind: ErrorKind::Expected(Expectation::AlphaNumeric),
        child: None,
    })));
    assert_eq!(alpha_or_underscore1("aé"), Ok(("é", "a")));
}
