use ross_dsl::config::{Extractor, Filter, Matcher, Producer};
use ross_dsl::error::{ErrorKind, Expectation, Failure, ParserError, ScannerKind};
use ross_dsl::statement::do_statement::do_statement;
use ross_dsl::statement::fire_statement::fire_statement;
use ross_dsl::table::Constants;
use ross_dsl::value::Value;

const TICK: u16 = 0x0009;

#[test]
fn do_statement_provided_extractor_test() {
    let constants = Constants::new();
    let (input, event_producer) = do_statement(
        &constants,
        TICK,
        "do {
                match event 0xabab~u16;
                match producer 0x0123~u16;
                fire {
                    PacketExtractor();
                    PacketProducer(0xffff~u16);
                }
            }input",
    )
    .unwrap();

    assert_eq!(input, "input");

    match event_producer.matcher {
        Matcher::And(matcher1, matcher2) => {
            match *matcher1 {
                Matcher::Single { extractor, filter } => {
                    assert_eq!(extractor, Extractor::EventCodeExtractor);
                    assert_eq!(filter, Filter::ValueEqualToConstFilter(Value::U16(0xabab)));
                }
                other => panic!("expected a single matcher, found {:?}", other),
            }
            match *matcher2 {
                Matcher::Single { extractor, filter } => {
                    assert_eq!(extractor, Extractor::EventProducerAddressExtractor);
                    assert_eq!(filter, Filter::ValueEqualToConstFilter(Value::U16(0x0123)));
                }
                other => panic!("expected a single matcher, found {:?}", other),
            }
        }
        other => panic!("expected a conjunction, found {:?}", other),
    }

    let creators = event_producer.creators;

    assert_eq!(creators.len(), 1);
    assert_eq!(creators[0].extractor, Extractor::PacketExtractor);
    assert_eq!(creators[0].producer, Producer::PacketProducer(0xffff));
}

#[test]
fn do_statement_missing_close_brace_test() {
    let constants = Constants::new();
    assert!(matches!(
        do_statement(
            &constants,
            TICK,
            "do {
                    match event 0xabab~u16;
                    match producer 0x0123~u16;
                    fire {
                        PacketExtractor();
                        PacketProducer(0xffff~u16);
                    }",
        ),
        Err(Failure::Recoverable(ParserError::Base {
            location: _,
            kind: ErrorKind::Expected(Expectation::Symbol('}')),
            child: None,
        }))
    ));
}

#[test]
fn do_statement_invalid_literal_test() {
    let constants = Constants::new();
    assert!(matches!(
        do_statement(
            &constants,
            TICK,
            "do {
                    match event 0xabab~u16;
                    match producer 0x0123~u16;
                    fire {
                        PacketExtractor();
                        PacketProducer(0xffffffff~u32);
                    }
                }",
        ),
        Err(Failure::Fatal(ParserError::Base {
            location: _,
            kind: ErrorKind::CastFromToNotAllowed("u32", "u16"),
            child: None,
        }))
    ));
}

#[test]
fn fire_statement_provided_extractor_test() {
    let constants = Constants::new();
    let (input, creator) = fire_statement(
        &constants,
        TICK,
        "fire {
                PacketExtractor();
                PacketProducer(0xabab~u16);
            }input",
    )
    .unwrap();

    assert_eq!(input, "input");
    assert_eq!(creator.extractor, Extractor::PacketExtractor);
    assert_eq!(creator.producer, Producer::PacketProducer(0xabab));
    assert!(matches!(creator.matcher, None));
}

#[test]
fn fire_statement_missing_close_brace_test() {
    let constants = Constants::new();
    assert!(matches!(
        fire_statement(
            &constants,
            TICK,
            "fire {
                    PacketExtractor();
                    PacketProducer(0xabab~u16);",
        ),
        Err(Failure::Recoverable(ParserError::Base {
            location: _,
            kind: ErrorKind::Scanner(ScannerKind::Alt),
            child: Some(_),
        }))
    ));
}

#[test]
fn fire_statement_invalid_literal_test() {
    let constants = Constants::new();
    assert!(matches!(
        fire_statement(
            &constants,
            TICK,
            "fire {
                    PacketExtractor();
                    PacketProducer(0xabababab~u32);
                }",
        ),
        Err(Failure::Fatal(ParserError::Base {
            location: _,
            kind: ErrorKind::CastFromToNotAllowed("u32", "u16"),
            child: None,
        }))
    ));
}

#[test]
fn if_match_test() {
    let constants = Constants::new();
    let (input, creator) = fire_statement(
        &constants,
        TICK,
        "fire {
                PacketExtractor();
                PacketProducer(0xabab~u16);
            } if match {
                EventCodeExtractor();
                ValueEqualToConstFilter(0x0123~u16);
            }input",
    )
    .unwrap();

    assert_eq!(input, "input");
    assert_eq!(creator.extractor, Extractor::PacketExtractor);
    assert_eq!(creator.producer, Producer::PacketProducer(0xabab));
    match creator.matcher {
        Some(Matcher::Single { extractor, filter }) => {
            assert_eq!(extractor, Extractor::EventCodeExtractor);
            assert_eq!(filter, Filter::ValueEqualToConstFilter(Value::U16(0x0123)));
        }
        other => panic!("expected a single matcher, found {:?}", other),
    }
}
