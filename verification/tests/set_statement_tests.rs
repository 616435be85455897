use ross_dsl::config::{EventProcessor, Extractor, Filter, Matcher};
use ross_dsl::error::{ErrorKind, Expectation, Failure, ParserError, ScannerKind};
use ross_dsl::statement::set_statement::set_statement;
use ross_dsl::table::{Constants, StateVariables};
use ross_dsl::value::Value;

const TICK: u16 = 0x0009;

fn parse_set(text: &str) -> Result<(&str, EventProcessor), Failure> {
    let constants = Constants::new();
    let mut state_variables = StateVariables::new();
    state_variables.insert("button_pressed", 0);
    set_statement(&constants, &state_variables, TICK, text)
}

fn assert_one(matcher: Matcher, expected_extractor: Extractor, expected_filter: Filter) {
    match matcher {
        Matcher::Single { extractor, filter } => {
            assert_eq!(extractor, expected_extractor);
            assert_eq!(filter, expected_filter);
        }
        other => panic!("expected a single matcher, found {:?}", other),
    }
}

fn assert_base(matcher: Matcher) {
    match matcher {
        Matcher::And(matcher1, matcher2) => {
            assert_one(
                *matcher1,
                Extractor::EventCodeExtractor,
                Filter::ValueEqualToConstFilter(Value::U16(0xabab)),
            );
            match *matcher2 {
                Matcher::And(matcher1, matcher2) => {
                    assert_one(
                        *matcher1,
                        Extractor::EventProducerAddressExtractor,
                        Filter::ValueEqualToConstFilter(Value::U16(0x0123)),
                    );
                    assert_one(
                        *matcher2,
                        Extractor::NoneExtractor,
                        Filter::SetStateToConstFilter(0, Value::Bool(true)),
                    );
                }
                other => panic!("expected a conjunction, found {:?}", other),
            }
        }
        other => panic!("expected a conjunction, found {:?}", other),
    }
}

#[test]
fn set_statement_normal_syntax_test() {
    let (input, event_processor) =
        parse_set("set button_pressed to true on 0xabab~u16 from 0x0123~u16;input").unwrap();

    assert_eq!(input, "input");
    assert_base(event_processor.matcher);
    assert_eq!(event_processor.creators.len(), 0);
}

#[test]
fn set_statement_normal_syntax_missing_semicolon_test() {
    assert!(matches!(
        parse_set("set button_pressed to true on 0xabab~u16 from 0x0123~u16"),
        Err(Failure::Fatal(ParserError::Base {
            location,
            kind: ErrorKind::Expected(Expectation::Symbol(';')),
            child: None,
        })) if location.is_empty()
    ));
}

#[test]
fn set_statement_normal_syntax_missing_from_keyword_test() {
    assert!(matches!(
        parse_set("set button_pressed to true on 0xabab~u16 0x0123~u16;"),
        Err(Failure::Fatal(ParserError::Base {
            location: _,
            kind: ErrorKind::Expected(Expectation::Keyword("from")),
            child: Some(_),
        }))
    ));
}

#[test]
fn set_statement_normal_syntax_missing_to_keyword_test() {
    assert!(matches!(
        parse_set("set button_pressed true on 0xabab~u16 from 0x0123~u16;"),
        Err(Failure::Fatal(ParserError::Base {
            location: _,
            kind: ErrorKind::Expected(Expectation::Keyword("to")),
            child: None,
        }))
    ));
}

#[test]
fn normal_syntax_missing_on_keyword_test() {
    assert!(matches!(
        parse_set("set button_pressed to true 0xabab~u16 from 0x0123~u16;"),
        Err(Failure::Fatal(ParserError::Base {
            location: _,
            kind: ErrorKind::Expected(Expectation::Keyword("on")),
            child: Some(_),
        }))
    ));
}

#[test]
fn set_statement_normal_syntax_empty_test() {
    let constants = Constants::new();
    let state_variables = StateVariables::new();

    assert!(matches!(
        set_statement(&constants, &state_variables, TICK, ""),
        Err(Failure::Recoverable(ParserError::Base {
            location: _,
            kind: ErrorKind::Scanner(ScannerKind::Alt),
            child: Some(_),
        }))
    ));
}

#[test]
fn set_statement_if_match_event_test() {
    let (input, event_processor) = parse_set(
        "set button_pressed to true on 0xabab~u16 from 0x0123~u16 if match event 0xbaba~u16;input",
    )
    .unwrap();

    assert_eq!(input, "input");

    match event_processor.matcher {
        Matcher::And(matcher1, matcher2) => {
            assert_one(
                *matcher1,
                Extractor::EventCodeExtractor,
                Filter::ValueEqualToConstFilter(Value::U16(0xbaba)),
            );
            assert_base(*matcher2);
        }
        other => panic!("expected a conjunction, found {:?}", other),
    }

    assert_eq!(event_processor.creators.len(), 0);
}

#[test]
fn set_statement_if_match_event_missing_semicolon_test() {
    assert!(matches!(
        parse_set(
            "set button_pressed to true on 0xabab~u16 from 0x0123~u16 if match event 0xbaba~u16",
        ),
        Err(Failure::Fatal(ParserError::Base {
            location,
            kind: ErrorKind::Expected(Expectation::Symbol(';')),
            child: None,
        })) if location.is_empty()
    ));
}

#[test]
fn set_statement_if_match_event_missing_from_keyword_test() {
    assert!(matches!(
        parse_set(
            "set button_pressed to true on 0xabab~u16 0x0123~u16 if match event 0xbaba~u16;"
        ),
        Err(Failure::Fatal(ParserError::Base {
            location: _,
            kind: ErrorKind::Expected(Expectation::Keyword("from")),
            child: Some(_),
        }))
    ));
}

#[test]
fn set_statement_if_match_event_missing_to_keyword_test() {
    assert!(matches!(
        parse_set(
            "set button_pressed true on 0xabab~u16 from 0x0123~u16 if match event 0xbaba~u16;",
        ),
        Err(Failure::Fatal(ParserError::Base {
            location: _,
            kind: ErrorKind::Expected(Expectation::Keyword("to")),
            child: None,
        }))
    ));
}

#[test]
fn if_match_event_missing_on_keyword_test() {
    assert!(matches!(
        parse_set(
            "set button_pressed to true  0xabab~u16 from 0x0123~u16 if match event 0xbaba~u16;",
        ),
        Err(Failure::Fatal(ParserError::Base {
            location: _,
            kind: ErrorKind::Expected(Expectation::Keyword("on")),
            child: Some(_),
        }))
    ));
}
