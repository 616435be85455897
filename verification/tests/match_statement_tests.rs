use ross_dsl::config::{Extractor, Filter, Matcher};
use ross_dsl::error::{ErrorKind, Expectation, Failure, ParserError};
use ross_dsl::statement::match_statement::match_statement;
use ross_dsl::table::Constants;
use ross_dsl::value::Value;

const INTERNAL_SYSTEM_TICK_EVENT_CODE: u16 = 0x0009;

fn equal_to(extractor: Extractor, value: u16) -> Matcher {
    Matcher::Single {
        extractor,
        filter: Filter::ValueEqualToConstFilter(Value::U16(value)),
    }
}

fn parse_match(text: &str) -> Result<(&str, Matcher), Failure> {
    let constants = Constants::new();
    match_statement(&constants, INTERNAL_SYSTEM_TICK_EVENT_CODE, text)
}

#[test]
fn block_extractor_test() {
    let (input, matcher) = parse_match(
        "match {
                EventCodeExtractor();
                ValueEqualToConstFilter(0xabab~u16);
            }input",
    )
    .unwrap();

    assert_eq!(input, "input");
    match matcher {
        Matcher::Single { extractor, filter } => {
            assert_eq!(extractor, Extractor::EventCodeExtractor);
            assert_eq!(filter, Filter::ValueEqualToConstFilter(Value::U16(0xabab)));
        }
        other => panic!("expected a single matcher, found {:?}", other),
    }
}

#[test]
fn block_no_extractor_test() {
    let (input, matcher) = parse_match(
        "match {
                ValueEqualToConstFilter(0xabab~u16);
            }input",
    )
    .unwrap();

    assert_eq!(input, "input");
    match matcher {
        Matcher::Single { extractor, filter } => {
            assert_eq!(extractor, Extractor::NoneExtractor);
            assert_eq!(filter, Filter::ValueEqualToConstFilter(Value::U16(0xabab)));
        }
        other => panic!("expected a single matcher, found {:?}", other),
    }
}

#[test]
fn block_two_extractors_test() {
    let result = parse_match(
        "match {
                    EventCodeExtractor();
                    NoneExtractor();
                }input",
    );
    assert!(matches!(
        result,
        Err(Failure::Fatal(ParserError::Base {
            location: _,
            kind: ErrorKind::UnknownFilter,
            child: None,
        }))
    ));
}

#[test]
fn block_not_test() {
    let (input, matcher) = parse_match(
        "match not {
                EventCodeExtractor();
                ValueEqualToConstFilter(0xabab~u16);
            }input",
    )
    .unwrap();

    assert_eq!(input, "input");
    match matcher {
        Matcher::Not(matcher) => match *matcher {
            Matcher::Single { extractor, filter } => {
                assert_eq!(extractor, Extractor::EventCodeExtractor);
                assert_eq!(filter, Filter::ValueEqualToConstFilter(Value::U16(0xabab)));
            }
            other => panic!("expected a single matcher, found {:?}", other),
        },
        other => panic!("expected a negation, found {:?}", other),
    }
}

#[test]
fn block_or_test() {
    let (input, matcher) = parse_match(
        "match or {
                {
                    EventCodeExtractor();
                    ValueEqualToConstFilter(0xabab~u16);
                },
                {
                    EventCodeExtractor();
                    ValueEqualToConstFilter(0x0123~u16);
                }
            }input",
    )
    .unwrap();

    assert_eq!(input, "input");
    match matcher {
        Matcher::Or(matcher1, matcher2) => {
            match *matcher1 {
                Matcher::Single { extractor, filter } => {
                    assert_eq!(extractor, Extractor::EventCodeExtractor);
                    assert_eq!(filter, Filter::ValueEqualToConstFilter(Value::U16(0xabab)));
                }
                other => panic!("expected a single matcher, found {:?}", other),
            }
            match *matcher2 {
                Matcher::Single { extractor, filter } => {
                    assert_eq!(extractor, Extractor::EventCodeExtractor);
                    assert_eq!(filter, Filter::ValueEqualToConstFilter(Value::U16(0x0123)));
                }
                other => panic!("expected a single matcher, found {:?}", other),
            }
        }
        other => panic!("expected a disjunction, found {:?}", other),
    }
}

#[test]
fn block_and_test() {
    let (input, matcher) = parse_match(
        "match and {
                {
                    EventCodeExtractor();
                    ValueEqualToConstFilter(0xabab~u16);
                },
                {
                    EventCodeExtractor();
                    ValueEqualToConstFilter(0x0123~u16);
                }
            }input",
    )
    .unwrap();

    assert_eq!(input, "input");
    match matcher {
        Matcher::And(matcher1, matcher2) => {
            match *matcher1 {
                Matcher::Single { extractor, filter } => {
                    assert_eq!(extractor, Extractor::EventCodeExtractor);
                    assert_eq!(filter, Filter::ValueEqualToConstFilter(Value::U16(0xabab)));
                }
                other => panic!("expected a single matcher, found {:?}", other),
            }
            match *matcher2 {
                Matcher::Single { extractor, filter } => {
                    assert_eq!(extractor, Extractor::EventCodeExtractor);
                    assert_eq!(filter, Filter::ValueEqualToConstFilter(Value::U16(0x0123)));
                }
                other => panic!("expected a single matcher, found {:?}", other),
            }
        }
        other => panic!("expected a conjunction, found {:?}", other),
    }
}

#[test]
fn block_nested_logic_test() {
    let (input, matcher) = parse_match(
        "match and {
                or {
                    {
                        EventCodeExtractor();
                        ValueEqualToConstFilter(0xabab~u16);
                    },
                    {
                        EventCodeExtractor();
                        ValueEqualToConstFilter(0x0123~u16);
                    }
                },
                {
                    EventProducerAddressExtractor();
                    ValueEqualToConstFilter(0xffff~u16);
                }
            }input",
    )
    .unwrap();

    assert_eq!(input, "input");
    match matcher {
        Matcher::And(matcher1, matcher2) => {
            match *matcher1 {
                Matcher::Or(matcher1, matcher2) => {
                    match *matcher1 {
                        Matcher::Single { extractor, filter } => {
                            assert_eq!(extractor, Extractor::EventCodeExtractor);
                            assert_eq!(
                                filter,
                                Filter::ValueEqualToConstFilter(Value::U16(0xabab))
                            );
                        }
                        other => panic!("expected a single matcher, found {:?}", other),
                    }
                    match *matcher2 {
                        Matcher::Single { extractor, filter } => {
                            assert_eq!(extractor, Extractor::EventCodeExtractor);
                            assert_eq!(
                                filter,
                                Filter::ValueEqualToConstFilter(Value::U16(0x0123))
                            );
                        }
                        other => panic!("expected a single matcher, found {:?}", other),
                    }
                }
                other => panic!("expected a disjunction, found {:?}", other),
            }
            match *matcher2 {
                Matcher::Single { extractor, filter } => {
                    assert_eq!(extractor, Extractor::EventProducerAddressExtractor);
                    assert_eq!(filter, Filter::ValueEqualToConstFilter(Value::U16(0xffff)));
                }
                other => panic!("expected a single matcher, found {:?}", other),
            }
        }
        other => panic!("expected a conjunction, found {:?}", other),
    }
}

#[test]
fn event_test() {
    let (input, matcher) = parse_match("match event 0xabab~u16;input").unwrap();

    assert_eq!(input, "input");
    assert_eq!(matcher, equal_to(Extractor::EventCodeExtractor, 0xabab));
}

#[test]
fn event_invalid_literal_test() {
    assert!(matches!(
        parse_match("match event 0xabababab~u32;input"),
        Err(Failure::Fatal(ParserError::Base {
            location: _,
            kind: ErrorKind::CastFromToNotAllowed("u32", "u16"),
            child: None,
        }))
    ));
}

#[test]
fn event_missing_semicolon_test() {
    assert!(matches!(
        parse_match("match event 0xabab~u16"),
        Err(Failure::Fatal(ParserError::Base {
            location,
            kind: ErrorKind::Expected(Expectation::Symbol(';')),
            child: None,
        })) if location.is_empty()
    ));
}

#[test]
fn producer_test() {
    let (input, matcher) = parse_match("match producer 0xabab~u16;input").unwrap();

    assert_eq!(input, "input");
    assert_eq!(input, "input");
    assert_eq!(matcher, equal_to(Extractor::EventProducerAddressExtractor, 0xabab));
}

#[test]
fn producer_invalid_literal_test() {
    assert!(matches!(
        parse_match("match producer 0xabababab~u32;input"),
        Err(Failure::Fatal(ParserError::Base {
            location: _,
            kind: ErrorKind::CastFromToNotAllowed("u32", "u16"),
            child: None,
        }))
    ));
}

#[test]
fn producer_missing_semicolon_test() {
    assert!(matches!(
        parse_match("match producer 0xabab~u16"),
        Err(Failure::Fatal(ParserError::Base {
            location,
            kind: ErrorKind::Expected(Expectation::Symbol(';')),
            child: None,
        })) if location.is_empty()
    ));
}

#[test]
fn tick_test() {
    let (input, matcher) = parse_match("match tick;input").unwrap();

    assert_eq!(input, "input");
    assert_eq!(input, "input");
    assert_eq!(
        matcher,
        equal_to(Extractor::EventCodeExtractor, INTERNAL_SYSTEM_TICK_EVENT_CODE)
    );
}

#[test]
fn tick_missing_semicolon_test() {
    assert!(matches!(
        parse_match("match tick"),
        Err(Failure::Fatal(ParserError::Base {
            location,
            kind: ErrorKind::Expected(Expectation::Symbol(';')),
            child: None,
        })) if location.is_empty()
    ));
}
