use ross_dsl::config::{EventProcessor, Extractor, Filter, Matcher, Producer};
use ross_dsl::error::{ErrorKind, Expectation, Failure, ParserError, ScannerKind};
use ross_dsl::statement::send_statement::send_statement;
use ross_dsl::table::Constants;
use ross_dsl::value::Value;

const TICK: u16 = 0x0009;

fn parse_send(text: &str) -> Result<(&str, EventProcessor), Failure> {
    let constants = Constants::new();
    send_statement(&constants, TICK, text)
}

fn assert_single(matcher: Matcher, expected_extractor: Extractor, expected_filter: Filter) {
    match matcher {
        Matcher::Single { extractor, filter } => {
            assert_eq!(extractor, expected_extractor);
            assert_eq!(filter, expected_filter);
        }
        other => panic!("expected a single matcher, found {:?}", other),
    }
}

#[test]
fn send_statement_normal_syntax_test() {
    let (input, event_processor) =
        parse_send("send 0xabab~u16 from 0x0123~u16 to 0xffff~u16;input").unwrap();

    assert_eq!(input, "input");

    match event_processor.matcher {
        Matcher::And(matcher1, matcher2) => {
            assert_single(
                *matcher1,
                Extractor::EventCodeExtractor,
                Filter::ValueEqualToConstFilter(Value::U16(0xabab)),
            );
            assert_single(
                *matcher2,
                Extractor::EventProducerAddressExtractor,
                Filter::ValueEqualToConstFilter(Value::U16(0x0123)),
            );
        }
        other => panic!("expected a conjunction, found {:?}", other),
    }

    let creators = event_processor.creators;

    assert_eq!(creators.len(), 1);
    assert_eq!(creators[0].extractor, Extractor::PacketExtractor);
    assert_eq!(creators[0].producer, Producer::PacketProducer(0xffff));
}

#[test]
fn send_statement_normal_syntax_missing_semicolon_test() {
    assert!(matches!(
        parse_send("send 0xabab~u16 from 0x0123~u16 to 0xffff~u16"),
        Err(Failure::Fatal(ParserError::Base {
            location,
            kind: ErrorKind::Expected(Expectation::Symbol(';')),
            child: None,
        })) if location.is_empty()
    ));
}

#[test]
fn send_statement_normal_syntax_missing_from_keyword_test() {
    assert!(matches!(
        parse_send("send 0xabab~u16 0x0123~u16 to 0xffff~u16;"),
        Err(Failure::Fatal(ParserError::Base {
            location: _,
            kind: ErrorKind::Expected(Expectation::Keyword("from")),
            child: Some(_),
        }))
    ));
}

#[test]
fn send_statement_normal_syntax_missing_to_keyword_test() {
    assert!(matches!(
        parse_send("send 0xabab~u16 from 0x0123~u16 0xffff~u16;"),
        Err(Failure::Fatal(ParserError::Base {
            location: _,
            kind: ErrorKind::Expected(Expectation::Keyword("to")),
            child: Some(_),
        }))
    ));
}

#[test]
fn send_statement_normal_syntax_empty_test() {
    assert!(matches!(
        parse_send(""),
        Err(Failure::Recoverable(ParserError::Base {
            location: _,
            kind: ErrorKind::Scanner(ScannerKind::Alt),
            child: Some(_),
        }))
    ));
}

#[test]
fn send_statement_if_match_event_test() {
    let (input, event_processor) = parse_send(
        "send 0xabab~u16 from 0x0123~u16 to 0xffff~u16 if match event 0xbaba~u16;input",
    )
    .unwrap();

    assert_eq!(input, "input");

    match event_processor.matcher {
        Matcher::And(matcher1, matcher2) => {
            match *matcher1 {
                Matcher::And(matcher1, matcher2) => {
                    assert_single(
                        *matcher1,
                        Extractor::EventCodeExtractor,
                        Filter::ValueEqualToConstFilter(Value::U16(0xabab)),
                    );
                    assert_single(
                        *matcher2,
                        Extractor::EventProducerAddressExtractor,
                        Filter::ValueEqualToConstFilter(Value::U16(0x0123)),
                    );
                }
                other => panic!("expected a conjunction, found {:?}", other),
            }
            assert_single(
                *matcher2,
                Extractor::EventCodeExtractor,
                Filter::ValueEqualToConstFilter(Value::U16(0xbaba)),
            );
        }
        other => panic!("expected a conjunction, found {:?}", other),
    }

    let creators = event_processor.creators;

    assert_eq!(creators.len(), 1);
    assert_eq!(creators[0].extractor, Extractor::PacketExtractor);
    assert_eq!(creators[0].producer, Producer::PacketProducer(0xffff));
}

#[test]
fn send_statement_if_match_event_missing_semicolon_test() {
    assert!(matches!(
        parse_send("send 0xabab~u16 from 0x0123~u16 to 0xffff~u16 if match event 0xbaba~u16",),
        Err(Failure::Fatal(ParserError::Base {
            location,
            kind: ErrorKind::Expected(Expectation::Symbol(';')),
            child: None,
        })) if location.is_empty()
    ));
}

#[test]
fn send_statement_if_match_event_missing_from_keyword_test() {
    assert!(matches!(
        parse_send("send 0xabab~u16 0x0123~u16 to 0xffff~u16 if match event 0xbaba~u16;"),
        Err(Failure::Fatal(ParserError::Base {
            location: _,
            kind: ErrorKind::Expected(Expectation::Keyword("from")),
            child: Some(_),
        }))
    ));
}

#[test]
fn send_statement_if_match_event_missing_to_keyword_test() {
    assert!(matches!(
        parse_send("send 0xabab~u16 from 0x0123~u16 0xffff~u16 if match event 0xbaba~u16;",),
        Err(Failure::Fatal(ParserError::Base {
            location: _,
            kind: ErrorKind::Expected(Expectation::Keyword("to")),
            child: Some(_),
        }))
    ));
}
