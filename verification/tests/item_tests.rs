use ross_dsl::config::{Extractor, Filter, Producer};
use ross_dsl::error::{ErrorKind, Expectation, Failure, ParserError};
use ross_dsl::extractor::extractor;
use ross_dsl::filter::filter;
use ross_dsl::producer::producer;
use ross_dsl::table::Constants;
use ross_dsl::value::{
    BcmValue, CronExpression, CronField, MessageValue, RelayDoubleExclusiveValue, RelayValue,
    Value,
};

fn item_failure<T: std::fmt::Debug>(result: Result<(&str, T), Failure>) -> (String, ErrorKind) {
    match result {
        Err(Failure::Recoverable(ParserError::Base { location, kind, child: None })) => {
            (location, kind)
        }
        other => panic!("expected a recoverable failure without a cause, found {:?}", other),
    }
}

fn extractors() -> Vec<(&'static str, Extractor)> {
    vec![
        ("NoneExtractor", Extractor::NoneExtractor),
        ("PacketExtractor", Extractor::PacketExtractor),
        ("EventCodeExtractor", Extractor::EventCodeExtractor),
        ("EventProducerAddressExtractor", Extractor::EventProducerAddressExtractor),
        ("MessageCodeExtractor", Extractor::MessageCodeExtractor),
        ("MessageValueExtractor", Extractor::MessageValueExtractor),
        ("ButtonIndexExtractor", Extractor::ButtonIndexExtractor),
    ]
}

fn once() -> CronField {
    CronField::Including(vec![1])
}

fn filters() -> Vec<(&'static str, Vec<&'static str>, Filter)> {
    let state = "0xabababab~u32";
    let value = "0xbabababa~u32";
    let index = 0xabab_abab;
    let constant = Value::U32(0xbaba_baba);
    vec![
        (
            "ValueEqualToConstFilter",
            vec![state],
            Filter::ValueEqualToConstFilter(Value::U32(0xabab_abab)),
        ),
        ("StateEqualToConstFilter", vec![state, value], Filter::StateEqualToConstFilter(index, constant)),
        ("StateEqualToValueFilter", vec![state], Filter::StateEqualToValueFilter(index)),
        (
            "IncrementStateByConstFilter",
            vec![state, value],
            Filter::IncrementStateByConstFilter(index, constant),
        ),
        ("IncrementStateByValueFilter", vec![state], Filter::IncrementStateByValueFilter(index)),
        (
            "DecrementStateByConstFilter",
            vec![state, value],
            Filter::DecrementStateByConstFilter(index, constant),
        ),
        ("DecrementStateByValueFilter", vec![state], Filter::DecrementStateByValueFilter(index)),
        ("SetStateToConstFilter", vec![state, value], Filter::SetStateToConstFilter(index, constant)),
        ("SetStateToValueFilter", vec![state], Filter::SetStateToValueFilter(index)),
        ("FlipStateFilter", vec![state], Filter::FlipStateFilter(index)),
        (
            "TimeMatchesCronExpressionFilter",
            vec!["\"1 1 1 1 1 1 *\""],
            Filter::TimeMatchesCronExpressionFilter(CronExpression {
                second: once(),
                minute: once(),
                hour: once(),
                day_month: once(),
                month: once(),
                day_week: once(),
                year: CronField::Any,
            }),
        ),
        ("StateMoreThanConstFilter", vec![state, value], Filter::StateMoreThanConstFilter(index, constant)),
    ]
}

fn producers() -> Vec<(&'static str, Vec<&'static str>, Producer)> {
    vec![
        ("NoneProducer", vec![], Producer::NoneProducer),
        ("PacketProducer", vec!["0xabab~u16"], Producer::PacketProducer(0xabab)),
        (
            "MessageProducer",
            vec!["0xabab~u16", "0x0123~u16", "false"],
            Producer::MessageProducer(0xabab, 0x0123, MessageValue::Bool(false)),
        ),
        (
            "BcmChangeBrightnessProducer",
            vec!["0xabab~u16", "0x01~u8", "#234567ff"],
            Producer::BcmChangeBrightnessProducer(0xabab, 0x01, BcmValue::Rgb(0x23, 0x45, 0x67, 0xff)),
        ),
        (
            "BcmChangeBrightnessStateProducer",
            vec!["0xabab~u16", "0x01~u8", "0xabababab~u32"],
            Producer::BcmChangeBrightnessStateProducer(0xabab, 0x01, 0xabab_abab),
        ),
        (
            "BcmAnimateBrightnessProducer",
            vec!["0xabab~u16", "0x01~u8", "0xabababab~u32", "#23456789ff"],
            Producer::BcmAnimateBrightnessProducer(
                0xabab,
                0x01,
                0xabab_abab,
                BcmValue::Rgbw(0x23, 0x45, 0x67, 0x89, 0xff),
            ),
        ),
        (
            "BcmAnimateBrightnessStateProducer",
            vec!["0xabab~u16", "0x01~u8", "0xabababab~u32", "0xffffffff~u32"],
            Producer::BcmAnimateBrightnessStateProducer(0xabab, 0x01, 0xabab_abab, 0xffff_ffff),
        ),
        (
            "RelaySetValueProducer",
            vec!["0xabab~u16", "0x01~u8", "\"first\""],
            Producer::RelaySetValueProducer(
                0xabab,
                0x01,
                RelayValue::DoubleExclusive(RelayDoubleExclusiveValue::FirstChannelOn),
            ),
        ),
    ]
}

fn call(name: &str, arguments: &[&str], end: &str) -> String {
    format!("{}( {} ){}", name, arguments.join(" , "), end)
}

fn booleans(count: usize) -> Vec<&'static str> {
    vec!["false"; count]
}

#[test]
fn every_extractor_is_called_by_its_name() {
    let constants = Constants::new();
    for (name, expected) in extractors() {
        let text = call(name, &[], ";input");
        assert_eq!(extractor(&constants, &text), Ok(("input", expected)));
    }
}

#[test]
fn extractor_without_semicolon_fails_after_the_call() {
    let constants = Constants::new();
    for (name, _) in extractors() {
        let text = call(name, &[], "input");
        let (location, kind) = item_failure(extractor(&constants, &text));
        assert_eq!(location, "input");
        assert_eq!(kind, ErrorKind::Expected(Expectation::Symbol(';')));
    }
}

#[test]
fn extractor_with_an_argument_fails_with_the_counts() {
    let constants = Constants::new();
    for (name, _) in extractors() {
        let text = format!("{}(false);input", name);
        let (location, kind) = item_failure(extractor(&constants, &text));
        assert_eq!(location, "input");
        assert_eq!(kind, ErrorKind::Expected(Expectation::ArgumentCount(0, 1)));
    }
}

#[test]
fn unknown_extractor_fails_at_its_name() {
    let constants = Constants::new();
    let (location, kind) = item_failure(extractor(&constants, "SomeExtractor();input"));
    assert_eq!(location, "SomeExtractor");
    assert_eq!(kind, ErrorKind::UnknownExtractor);
}

#[test]
fn every_filter_is_called_by_its_name() {
    let constants = Constants::new();
    for (name, arguments, expected) in filters() {
        let text = call(name, &arguments, ";input");
        assert_eq!(filter(&constants, &text), Ok(("input", expected)));
    }
}

#[test]
fn filter_without_semicolon_fails_after_the_call() {
    let constants = Constants::new();
    for (name, arguments, _) in filters() {
        let text = call(name, &arguments, "input");
        let (location, kind) = item_failure(filter(&constants, &text));
        assert_eq!(location, "input");
        assert_eq!(kind, ErrorKind::Expected(Expectation::Symbol(';')));
    }
}

#[test]
fn filter_with_a_wrong_number_of_arguments_fails_with_the_counts() {
    let constants = Constants::new();
    for (name, arguments, _) in filters() {
        let arity = arguments.len();
        for found in [arity - 1, arity + 1] {
            let text = call(name, &booleans(found), ";input");
            let (location, kind) = item_failure(filter(&constants, &text));
            assert_eq!(location, "input");
            assert_eq!(kind, ErrorKind::Expected(Expectation::ArgumentCount(arity, found)));
        }
    }
}

#[test]
fn unknown_filter_fails_at_its_name() {
    let constants = Constants::new();
    let (location, kind) = item_failure(filter(&constants, "U16IsEqualFilter(0x01~u16);input"));
    assert_eq!(location, "U16IsEqualFilter");
    assert_eq!(kind, ErrorKind::UnknownFilter);
}

#[test]
fn every_producer_is_called_by_its_name() {
    let constants = Constants::new();
    for (name, arguments, expected) in producers() {
        let text = call(name, &arguments, ";input");
        assert_eq!(producer(&constants, &text), Ok(("input", expected)));
    }
}

#[test]
fn producer_without_semicolon_fails_after_the_call() {
    let constants = Constants::new();
    for (name, arguments, _) in producers() {
        let text = call(name, &arguments, "input");
        let (location, kind) = item_failure(producer(&constants, &text));
        assert_eq!(location, "input");
        assert_eq!(kind, ErrorKind::Expected(Expectation::Symbol(';')));
    }
}

#[test]
fn producer_with_a_wrong_number_of_arguments_fails_with_the_counts() {
    let constants = Constants::new();
    for (name, arguments, _) in producers() {
        let arity = arguments.len();
        let mut counts = vec![arity + 1];
        if arity > 0 {
            counts.push(arity - 1);
        }
        for found in counts {
            let text = call(name, &booleans(found), ";input");
            let (location, kind) = item_failure(producer(&constants, &text));
            assert_eq!(location, "input");
            assert_eq!(kind, ErrorKind::Expected(Expectation::ArgumentCount(arity, found)));
        }
    }
}

#[test]
fn unknown_producer_fails_at_its_name() {
    let constants = Constants::new();
    let (location, kind) = item_failure(producer(&constants, "Sender1();input"));
    assert_eq!(location, "Sender1");
    assert_eq!(kind, ErrorKind::UnknownProducer);
}

#[test]
fn zero_argument_item_with_one_argument() {
    let constants = Constants::new();
    let (_, kind) = item_failure(producer(&constants, "NoneProducer(false);"));
    assert_eq!(kind, ErrorKind::Expected(Expectation::ArgumentCount(0, 1)));
}

#[test]
fn two_argument_item_with_three_arguments() {
    let constants = Constants::new();
    let (_, kind) = item_failure(filter(
        &constants,
        "SetStateToConstFilter(0x00~u32, true, false);",
    ));
    assert_eq!(kind, ErrorKind::Expected(Expectation::ArgumentCount(2, 3)));
}

#[test]
fn argument_of_another_type_is_not_allowed() {
    let constants = Constants::new();
    let (location, kind) = item_failure(producer(&constants, "PacketProducer(0x01~u8);"));
    assert_eq!(location, "");
    assert_eq!(kind, ErrorKind::CastFromToNotAllowed("u8", "u16"));

    let (_, kind) = item_failure(filter(&constants, "FlipStateFilter(0xabab~u16);"));
    assert_eq!(kind, ErrorKind::CastFromToNotAllowed("u16", "u32"));
}

#[test]
fn first_argument_that_does_not_convert_fails() {
    let constants = Constants::new();
    let (_, kind) = item_failure(producer(
        &constants,
        "MessageProducer(0x01~u16, true, \"text\");",
    ));
    assert_eq!(kind, ErrorKind::CastFromToNotAllowed("bool", "u16"));

    let (_, kind) = item_failure(producer(
        &constants,
        "MessageProducer(0x01~u16, 0x02~u16, \"text\");",
    ));
    assert_eq!(kind, ErrorKind::CastFromToNotAllowed("string", "message value"));
}

#[test]
fn constant_in_a_call_is_its_value() {
    let mut constants = Constants::new();
    constants.insert("x", ross_dsl::literal::Literal::U8(0xab));
    let with_constant = filter(&constants, "ValueEqualToConstFilter(x);").unwrap();
    let with_literal = filter(&constants, "ValueEqualToConstFilter(0xab~u8);").unwrap();
    assert_eq!(with_constant, with_literal);
    assert_eq!(with_constant.1, Filter::ValueEqualToConstFilter(Value::U8(0xab)));
}

#[test]
fn value_that_is_no_literal_ends_the_arguments() {
    let constants = Constants::new();
    let (location, kind) = item_failure(filter(&constants, "FlipStateFilter(0x100~u8);"));
    assert_eq!(location, "0x100~u8);");
    assert_eq!(kind, ErrorKind::Expected(Expectation::Symbol(')')));

    let (location, kind) = item_failure(filter(&constants, "FlipStateFilter(0x01~u32, );"));
    assert_eq!(location, ", );");
    assert_eq!(kind, ErrorKind::Expected(Expectation::Symbol(')')));
}
