use ross_dsl::error::{ErrorKind, Expectation, Failure, ParserError, ScannerKind};
use ross_dsl::literal::literal;
use ross_dsl::parser::name_parser;
use ross_dsl::render::{show, LOCATION_WIDTH};

fn leaf(location: &str, kind: ErrorKind) -> ParserError {
    ParserError::Base { location: location.to_string(), kind, child: None }
}

fn error_of<T: std::fmt::Debug>(result: Result<T, Failure>) -> ParserError {
    match result {
        Err(Failure::Recoverable(error)) | Err(Failure::Fatal(error)) => error,
        other => panic!("expected a failure, found {:?}", other),
    }
}

#[test]
fn expectation_in_words() {
    assert_eq!(Expectation::ArgumentCount(2, 3).render(), "2 arguments found 3");
    assert_eq!(Expectation::ArgumentCount(0, 10).render(), "0 arguments found 10");
    assert_eq!(
        Expectation::ArgumentCount(1234567890, 4096).render(),
        "1234567890 arguments found 4096"
    );
    assert_eq!(Expectation::Keyword("let").render(), "\"let\"");
    assert_eq!(Expectation::Symbol(';').render(), "';'");
    assert_eq!(Expectation::Symbol('"').render(), "'\"'");
    assert_eq!(Expectation::Name.render(), "a name");
    assert_eq!(Expectation::Literal.render(), "a literal");
    assert_eq!(Expectation::Value.render(), "a value");
    assert_eq!(Expectation::Type.render(), "a type");
    assert_eq!(Expectation::StateVariable.render(), "a state variable");
    assert_eq!(Expectation::Alpha.render(), "an ascii letter");
    assert_eq!(Expectation::AlphaNumeric.render(), "an ascii alphanumeric character");
    assert_eq!(Expectation::Digit.render(), "an ascii digit");
    assert_eq!(Expectation::HexDigit.render(), "a hexadecimal digit");
    assert_eq!(Expectation::MultiSpace.render(), "a space, tab or newline");
    assert_eq!(Expectation::Something.render(), "something");
}

#[test]
fn kind_in_words() {
    assert_eq!(ErrorKind::Expected(Expectation::Name).render(), "expected a name");
    assert_eq!(ErrorKind::Scanner(ScannerKind::Alt).render(), "error in Alt");
    assert_eq!(ErrorKind::Scanner(ScannerKind::Many1).render(), "error in Many1");
    assert_eq!(ErrorKind::Scanner(ScannerKind::TakeUntil).render(), "error in TakeUntil");
    assert_eq!(ErrorKind::UnknownExtractor.render(), "unknown extractor");
    assert_eq!(ErrorKind::UnknownFilter.render(), "unknown filter");
    assert_eq!(ErrorKind::UnknownProducer.render(), "unknown producer");
    assert_eq!(
        ErrorKind::CastFromToNotAllowed("u16", "u8").render(),
        "cast from u16 to u8 not allowed"
    );
}

#[test]
fn failure_without_a_cause_is_one_line() {
    assert_eq!(
        error_of(literal("0xabab~u8;input")).render(),
        "expected a value at 0xabab"
    );
    assert_eq!(
        leaf("", ErrorKind::CastFromToNotAllowed("u32", "u16")).render(),
        "cast from u32 to u16 not allowed at "
    );
}

#[test]
fn cause_stands_indented_under_the_failure() {
    assert_eq!(
        error_of(name_parser("1state = 1~u8;")).render(),
        "expected a name at 1state = 1~u8; caused by:\n  expected an ascii letter at 1state = 1~u8;"
    );
}

#[test]
fn causes_stand_each_on_lines_of_their_own() {
    let expected = "\
expected a literal at asdasd caused by:
  error in Alt at asdasd caused by one of:
    error in Alt at asdasd caused by one of:
      expected \"false\" at asdasd
      expected \"true\" at asdasd
    expected '~' at sdasd
    expected an ascii digit at asdasd
    expected '\"' at asdasd
    expected '#' at asdasd";
    assert_eq!(error_of(literal("asdasd")).render(), expected);
}

#[test]
fn siblings_without_a_failure_above_them() {
    let siblings = ParserError::Alt(vec![
        leaf("a", ErrorKind::UnknownFilter),
        ParserError::Base {
            location: "b".to_string(),
            kind: ErrorKind::Expected(Expectation::Name),
            child: Some(Box::new(leaf("c", ErrorKind::Expected(Expectation::Alpha)))),
        },
    ]);
    assert_eq!(
        siblings.render(),
        "one of:\n  unknown filter at a\n  expected a name at b caused by:\n    expected an ascii letter at c"
    );
    assert_eq!(ParserError::Alt(vec![]).render(), "one of:\n");
}

#[test]
fn place_is_one_trimmed_line_of_limited_length() {
    assert_eq!(LOCATION_WIDTH, 32);
    assert_eq!(show("  \n\t hello world \t\r\nsecond line"), "hello world");
    assert_eq!(show(""), "");
    assert_eq!(show(" \n "), "");
    assert_eq!(
        show("0123456789012345678901234567890123456789"),
        "01234567890123456789012345678901"
    );
    assert_eq!(show("01234567890123456789012345678901"), "01234567890123456789012345678901");
    assert_eq!(
        show("äöü 3456789012345678901234567 9ß and more"),
        "äöü 3456789012345678901234567 9ß"
    );
    assert_eq!(
        leaf("\n  do {\n    match tick;\n  }\n", ErrorKind::Expected(Expectation::Something))
            .render(),
        "expected something at do {"
    );
}

#[test]
fn joined_failures_keep_their_order() {
    let a = leaf("a", ErrorKind::UnknownExtractor);
    let b = leaf("b", ErrorKind::UnknownFilter);
    let c = leaf("c", ErrorKind::UnknownProducer);
    let d = leaf("d", ErrorKind::Expected(Expectation::Name));
    assert_eq!(
        leaf("a", ErrorKind::UnknownExtractor).or(leaf("b", ErrorKind::UnknownFilter)),
        ParserError::Alt(vec![
            leaf("a", ErrorKind::UnknownExtractor),
            leaf("b", ErrorKind::UnknownFilter)
        ])
    );
    let three = a.or(b).or(c);
    assert_eq!(
        three.render(),
        "one of:\n  unknown extractor at a\n  unknown filter at b\n  unknown producer at c"
    );
    let single_then_list = d.or(three);
    assert_eq!(
        single_then_list.render(),
        "one of:\n  unknown extractor at a\n  unknown filter at b\n  unknown producer at c\n  expected a name at d"
    );
    let first = ParserError::Alt(vec![leaf("1", ErrorKind::UnknownFilter)]);
    let second = ParserError::Alt(vec![leaf("2", ErrorKind::UnknownFilter)]);
    assert_eq!(
        first.or(second),
        ParserError::Alt(vec![
            leaf("2", ErrorKind::UnknownFilter),
            leaf("1", ErrorKind::UnknownFilter)
        ])
    );
}

#[test]
fn failures_are_made_from_low_level_steps() {
    assert_eq!(
        ParserError::from_error_kind("x", ScannerKind::HexDigit),
        leaf("x", ErrorKind::Expected(Expectation::HexDigit))
    );
    assert_eq!(
        ParserError::from_error_kind("x", ScannerKind::Alpha),
        leaf("x", ErrorKind::Expected(Expectation::Alpha))
    );
    assert_eq!(
        ParserError::from_error_kind("x", ScannerKind::TakeUntil),
        leaf("x", ErrorKind::Scanner(ScannerKind::TakeUntil))
    );
    assert_eq!(
        ParserError::from_char("x", '('),
        leaf("x", ErrorKind::Expected(Expectation::Symbol('(')))
    );
    assert_eq!(
        ParserError::append("x", ScannerKind::Many1, leaf("y", ErrorKind::UnknownFilter)),
        ParserError::Base {
            location: "x".to_string(),
            kind: ErrorKind::Scanner(ScannerKind::Many1),
            child: Some(Box::new(leaf("y", ErrorKind::UnknownFilter))),
        }
    );
    assert_eq!(
        Failure::Recoverable(leaf("x", ErrorKind::UnknownFilter)).cut(),
        Failure::Fatal(leaf("x", ErrorKind::UnknownFilter))
    );
    assert_eq!(
        error_of(literal("\"open")),
        ParserError::Base {
            location: "\"open".to_string(),
            kind: ErrorKind::Expected(Expectation::Literal),
            child: Some(Box::new(ParserError::Base {
                location: "\"open".to_string(),
                kind: ErrorKind::Scanner(ScannerKind::Alt),
                child: Some(Box::new(ParserError::Alt(vec![
                    ParserError::Base {
                        location: "\"open".to_string(),
                        kind: ErrorKind::Scanner(ScannerKind::Alt),
                        child: Some(Box::new(ParserError::Alt(vec![
                            ParserError::Base {
                                location: "\"open".to_string(),
                                kind: ErrorKind::Expected(Expectation::Keyword("false")),
                                child: Some(Box::new(leaf(
                                    "\"open",
                                    ErrorKind::Expected(Expectation::Alpha)
                                ))),
                            },
                            ParserError::Base {
                                location: "\"open".to_string(),
                                kind: ErrorKind::Expected(Expectation::Keyword("true")),
                                child: Some(Box::new(leaf(
                                    "\"open",
                                    ErrorKind::Expected(Expectation::Alpha)
                                ))),
                            },
                        ]))),
                    },
                    leaf("\"open", ErrorKind::Expected(Expectation::HexDigit)),
                    leaf("\"open", ErrorKind::Expected(Expectation::Digit)),
                    leaf("open", ErrorKind::Scanner(ScannerKind::TakeUntil)),
                    leaf("\"open", ErrorKind::Expected(Expectation::Symbol('#'))),
                ]))),
            })),
        }
    );
}
