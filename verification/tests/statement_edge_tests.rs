use ross_dsl::config::{
    BcmPeripheral, EventProcessor, Extractor, Filter, Matcher, Peripheral, RelayPeripheral,
};
use ross_dsl::error::{ErrorKind, Expectation, Failure, ParserError, ScannerKind};
use ross_dsl::literal::{literal_or_constant, state_variable, Literal};
use ross_dsl::parser::Parser;
use ross_dsl::program::EventCodes;
use ross_dsl::statement::const_statement::const_statement;
use ross_dsl::statement::do_statement::do_statement;
use ross_dsl::statement::let_statement::let_statement;
use ross_dsl::statement::match_statement::{block, match_statement};
use ross_dsl::statement::peripheral_statement::{
    family, peripheral_base, peripheral_statement, shape, Family, Shape,
};
use ross_dsl::statement::send_statement::send_statement;
use ross_dsl::statement::set_statement::set_statement;
use ross_dsl::table::{Constants, StateVariables};
use ross_dsl::value::Value;

const TICK: u16 = 0x0042;

fn single(extractor: Extractor, value: u16) -> Matcher {
    Matcher::Single { extractor, filter: Filter::ValueEqualToConstFilter(Value::U16(value)) }
}

fn recoverable<T: std::fmt::Debug>(result: Result<T, Failure>) -> ParserError {
    match result {
        Err(Failure::Recoverable(error)) => error,
        other => panic!("expected a recoverable failure, found {:?}", other),
    }
}

fn fatal<T: std::fmt::Debug>(result: Result<T, Failure>) -> ParserError {
    match result {
        Err(Failure::Fatal(error)) => error,
        other => panic!("expected a fatal failure, found {:?}", other),
    }
}

fn leaf(location: &str, kind: ErrorKind) -> ParserError {
    ParserError::Base { location: location.to_string(), kind, child: None }
}

#[test]
fn blocks_nest_to_any_depth() {
    let constants = Constants::new();
    let text = "and{or{not{ValueEqualToConstFilter(1~u16);},and{{ValueEqualToConstFilter(2~u16);},\
                {ValueEqualToConstFilter(3~u16);}}},or{{ValueEqualToConstFilter(4~u16);},\
                {ValueEqualToConstFilter(5~u16);}}} rest";
    let one = |value| single(Extractor::NoneExtractor, value);
    let expected = Matcher::And(
        Box::new(Matcher::Or(
            Box::new(Matcher::Not(Box::new(one(1)))),
            Box::new(Matcher::And(Box::new(one(2)), Box::new(one(3)))),
        )),
        Box::new(Matcher::Or(Box::new(one(4)), Box::new(one(5)))),
    );
    assert_eq!(block(&constants, text), Ok((" rest", expected)));
}

#[test]
fn slots_of_a_pair_are_two() {
    let constants = Constants::new();
    let text = "match or { { ValueEqualToConstFilter(1~u16); } }";
    assert_eq!(
        fatal(match_statement(&constants, TICK, text)),
        leaf("}", ErrorKind::Expected(Expectation::Symbol(',')))
    );
    let text = "match and { ValueEqualToConstFilter(1~u16); }";
    assert!(matches!(
        fatal(match_statement(&constants, TICK, text)),
        ParserError::Base { kind: ErrorKind::Scanner(ScannerKind::Alt), child: Some(_), .. }
    ));
    let text = "match not ValueEqualToConstFilter(1~u16);";
    assert_eq!(
        fatal(match_statement(&constants, TICK, text)),
        leaf("ValueEqualToConstFilter(1~u16);", ErrorKind::Expected(Expectation::Symbol('{')))
    );
}

#[test]
fn rule_needs_a_predicate() {
    let constants = Constants::new();
    let error = fatal(do_statement(&constants, TICK, "do { fire { NoneProducer(); } }"));
    match error {
        ParserError::Base { location, kind, child: Some(cause) } => {
            assert_eq!(location, " fire { NoneProducer(); } }");
            assert_eq!(kind, ErrorKind::Scanner(ScannerKind::Many1));
            assert!(matches!(
                *cause,
                ParserError::Base { kind: ErrorKind::Scanner(ScannerKind::Alt), .. }
            ));
        }
        other => panic!("expected a failure with a cause, found {:?}", other),
    }
}

#[test]
fn rule_with_one_predicate_has_that_predicate() {
    let constants = Constants::new();
    assert_eq!(
        do_statement(&constants, TICK, "do{match tick;}x"),
        Ok((
            "x",
            EventProcessor {
                matcher: single(Extractor::EventCodeExtractor, TICK),
                creators: vec![],
            }
        ))
    );
}

#[test]
fn predicates_of_a_rule_nest_to_the_left() {
    let constants = Constants::new();
    let (_, rule) = do_statement(
        &constants,
        TICK,
        "do { match event 1~u16; match event 2~u16; match event 3~u16; match event 4~u16; }",
    )
    .unwrap();
    let event = |value| Box::new(single(Extractor::EventCodeExtractor, value));
    assert_eq!(
        rule.matcher,
        Matcher::And(
            Box::new(Matcher::And(Box::new(Matcher::And(event(1), event(2))), event(3))),
            event(4)
        )
    );
}

#[test]
fn families_and_shapes_are_keywords() {
    assert_eq!(family("bcm x"), Ok((" x", Family::Bcm)));
    assert_eq!(family("relay("), Ok(("(", Family::Relay)));
    assert_eq!(shape("single("), Ok(("(", Shape::Single)));
    assert_eq!(shape("rgb("), Ok(("(", Shape::Rgb)));
    assert_eq!(shape("rgbw("), Ok(("(", Shape::Rgbw)));
    assert_eq!(shape("double_exclusive("), Ok(("(", Shape::DoubleExclusive)));
    assert!(matches!(
        recoverable(shape("double(")),
        ParserError::Base { kind: ErrorKind::Scanner(ScannerKind::Alt), child: Some(_), .. }
    ));
}

#[test]
fn family_has_its_shapes_only() {
    for text in [
        "peripheral 0~u32 relay rgb(1~u8, 2~u8, 3~u8);",
        "peripheral 0~u32 relay rgbw(1~u8, 2~u8, 3~u8, 4~u8);",
        "peripheral 0~u32 bcm double_exclusive(1~u8, 2~u8);",
    ] {
        assert_eq!(
            recoverable(peripheral_base(text)),
            leaf(text, ErrorKind::Expected(Expectation::Something))
        );
    }
}

#[test]
fn shape_has_its_number_of_channels() {
    let cases = [
        ("peripheral 0~u32 bcm single();", 1, 0),
        ("peripheral 0~u32 bcm rgb(1~u8, 2~u8);", 3, 2),
        ("peripheral 0~u32 bcm rgbw(1~u8, 2~u8, 3~u8, 4~u8, 5~u8);", 4, 5),
        ("peripheral 0~u32 relay single(1~u8, 2~u8);", 1, 2),
        ("peripheral 0~u32 relay double_exclusive(1~u8);", 2, 1),
    ];
    for (text, expected, found) in cases {
        assert_eq!(
            recoverable(peripheral_base(text)),
            leaf(text, ErrorKind::Expected(Expectation::ArgumentCount(expected, found)))
        );
    }
}

#[test]
fn index_and_channels_have_their_types() {
    assert_eq!(
        recoverable(peripheral_base("peripheral 0~u8 bcm single(true);")),
        leaf("", ErrorKind::CastFromToNotAllowed("u8", "u32"))
    );
    assert_eq!(
        recoverable(peripheral_base("peripheral 0~u32 bcm rgb(true, 2~u8, 3~u16);")),
        leaf("", ErrorKind::CastFromToNotAllowed("u16", "u8"))
    );
    assert_eq!(
        recoverable(peripheral_base("peripheral 0~u32 bcm rgb(true, 2~u8, 3~u8);")),
        leaf("", ErrorKind::CastFromToNotAllowed("bool", "u8"))
    );
    assert_eq!(
        peripheral_base("peripheral 7~u32 bcm rgb(1~u8, 2~u8, 3~u8);"),
        Ok(("", (7, Peripheral::Bcm(BcmPeripheral::Rgb(1, 2, 3), vec![]))))
    );
}

#[test]
fn peripheral_is_malformed_after_its_keyword() {
    assert_eq!(
        fatal(peripheral_base("peripheral;")),
        leaf(";", ErrorKind::Expected(Expectation::MultiSpace))
    );
    assert!(matches!(
        fatal(peripheral_base("peripheral 0~u32 dimmer single(1~u8);")),
        ParserError::Base { kind: ErrorKind::Scanner(ScannerKind::Alt), child: Some(_), .. }
    ));
    assert_eq!(
        recoverable(peripheral_base("peripheral 0~u32 relay single(1~u8) x")),
        leaf(" x", ErrorKind::Expected(Expectation::Symbol(';')))
    );
    let constants = Constants::new();
    assert!(matches!(
        recoverable(peripheral_statement(&constants, "let x = 1~u8;")),
        ParserError::Base { kind: ErrorKind::Scanner(ScannerKind::Alt), child: Some(_), .. }
    ));
}

#[test]
fn gateways_are_addresses() {
    let mut constants = Constants::new();
    constants.insert("gateway", Literal::U16(0x0a0b));
    assert_eq!(
        peripheral_statement(&constants, "pub (gateway)\n peripheral 3~u32 relay single(1~u8);"),
        Ok(("", (3, Peripheral::Relay(RelayPeripheral::Single(1), vec![0x0a0b]))))
    );
    assert_eq!(
        peripheral_statement(&constants, "pub() peripheral 3~u32 relay single(1~u8);"),
        Ok(("", (3, Peripheral::Relay(RelayPeripheral::Single(1), vec![]))))
    );
    assert!(matches!(
        recoverable(peripheral_statement(
            &constants,
            "pub(gateway, 1~u8, true) peripheral 3~u32 relay single(1~u8);"
        )),
        ParserError::Base {
            kind: ErrorKind::Scanner(ScannerKind::Alt),
            child: Some(siblings),
            ..
        } if matches!(&*siblings, ParserError::Alt(list)
            if list[0] == leaf("", ErrorKind::CastFromToNotAllowed("u8", "u16")))
    ));
    assert_eq!(
        fatal(peripheral_statement(&constants, "pub(gateway) peripheral x")),
        ParserError::Base {
            location: "x".to_string(),
            kind: ErrorKind::Expected(Expectation::Literal),
            child: fatal(peripheral_base("peripheral x")).into_child(),
        }
    );
}

trait IntoChild {
    fn into_child(self) -> Option<Box<ParserError>>;
}

impl IntoChild for ParserError {
    fn into_child(self) -> Option<Box<ParserError>> {
        match self {
            ParserError::Base { child, .. } => child,
            ParserError::Alt(_) => None,
        }
    }
}

#[test]
fn name_of_a_constant_comes_before_a_literal() {
    let mut constants = Constants::new();
    constants.insert("true", Literal::U8(1));
    constants.insert("level", Literal::Rgb(1, 2, 3, 4));
    assert_eq!(literal_or_constant(&constants, "true;"), Ok((";", Literal::U8(1))));
    assert_eq!(literal_or_constant(&constants, "false;"), Ok((";", Literal::Bool(false))));
    assert_eq!(literal_or_constant(&constants, "level)"), Ok((")", Literal::Rgb(1, 2, 3, 4))));
    assert_eq!(literal_or_constant(&constants, "0x10~u8"), Ok(("", Literal::U8(0x10))));
    assert!(matches!(
        recoverable(literal_or_constant(&constants, "levels")),
        ParserError::Base { kind: ErrorKind::Expected(Expectation::Literal), .. }
    ));
}

#[test]
fn state_variable_is_a_declared_name() {
    let mut variables = StateVariables::new();
    variables.insert("button", 3);
    assert_eq!(state_variable(&variables, "button to"), Ok((" to", 3)));
    assert_eq!(
        recoverable(state_variable(&variables, "buttons to")),
        leaf("buttons to", ErrorKind::Expected(Expectation::StateVariable))
    );
    assert!(matches!(
        recoverable(state_variable(&variables, "1 to")),
        ParserError::Base { kind: ErrorKind::Expected(Expectation::Name), child: Some(_), .. }
    ));
}

fn semicolon_at(location: &str) -> ParserError {
    leaf(location, ErrorKind::Expected(Expectation::Symbol(';')))
}

#[test]
fn short_predicate_without_semicolon_fails_after_it() {
    let constants = Constants::new();
    assert_eq!(
        fatal(match_statement(&constants, TICK, "match event 0xabab~u16 fire")),
        semicolon_at(" fire")
    );
    assert_eq!(
        fatal(match_statement(&constants, TICK, "match producer 0xabab~u16}")),
        semicolon_at("}")
    );
    assert_eq!(fatal(match_statement(&constants, TICK, "match tick\n}")), semicolon_at("\n}"));
    assert_eq!(fatal(match_statement(&constants, TICK, "match tick")), semicolon_at(""));
    assert!(matches!(
        recoverable(match_statement(&constants, TICK, "match ticket;")),
        ParserError::Base { kind: ErrorKind::Scanner(ScannerKind::Alt), child: Some(_), .. }
    ));
}

#[test]
fn rule_without_semicolon_fails_after_it() {
    let constants = Constants::new();
    let mut variables = StateVariables::new();
    variables.insert("slot", 0);
    assert_eq!(
        fatal(send_statement(&constants, TICK, "send 1~u16 from 2~u16 to 3~u16")),
        semicolon_at("")
    );
    assert_eq!(
        fatal(send_statement(&constants, TICK, "send 1~u16 from 2~u16 to 3~u16 \n do {")),
        semicolon_at("do {")
    );
    assert_eq!(
        fatal(send_statement(&constants, TICK, "send 1~u16 from 2~u16 to 3~u16 iff;")),
        semicolon_at("iff;")
    );
    assert_eq!(
        fatal(set_statement(&constants, &variables, TICK, "set slot to 1~u8 on 2~u16 from 3~u16}")),
        semicolon_at("}")
    );
    assert_eq!(
        fatal(let_statement("let x = 1~u8\nlet y = 2~u8;")),
        semicolon_at("\nlet y = 2~u8;")
    );
    assert_eq!(fatal(const_statement("const x = 1~u8 ;")), semicolon_at(" ;"));
    assert_eq!(
        recoverable(const_statement("const x = 1;")),
        ParserError::Base {
            location: "1;".to_string(),
            kind: ErrorKind::Expected(Expectation::Literal),
            child: recoverable(ross_dsl::literal::literal("1;")).into_child(),
        }
    );
}

#[test]
fn guard_stands_where_if_stands() {
    let constants = Constants::new();
    assert!(send_statement(&constants, TICK, "send 1~u16 from 2~u16 to 3~u16 ;").is_ok());
    assert!(send_statement(&constants, TICK, "send 1~u16 from 2~u16 to 3~u16\tif match tick;")
        .is_ok());
    assert_eq!(
        fatal(send_statement(&constants, TICK, "send 1~u16 from 2~u16 to 3~u16 if;")),
        leaf(";", ErrorKind::Expected(Expectation::MultiSpace))
    );
    assert_eq!(
        fatal(send_statement(&constants, TICK, "send 1~u16 from 2~u16 to 3~u16 if match tick")),
        semicolon_at("")
    );
    assert!(matches!(
        recoverable(send_statement(&constants, TICK, "sent 1~u16")),
        ParserError::Base { kind: ErrorKind::Scanner(ScannerKind::Alt), child: Some(_), .. }
    ));
}

#[test]
fn program_without_semicolon_fails_for_want_of_it() {
    let codes = EventCodes {
        bootloader_hello: 0,
        programmer_hello: 1,
        programmer_start_firmware_upgrade: 2,
        ack: 3,
        data: 4,
        configurator_hello: 5,
        bcm_change_brightness: 6,
        button_pressed: 7,
        button_released: 8,
        internal_system_tick: 9,
        programmer_start_config_upgrade: 10,
        programmer_set_device_address: 11,
        message: 12,
    };
    assert_eq!(
        Parser::parse("send 1~u16 from 2~u16 to 3~u16", &codes),
        Err(semicolon_at(""))
    );
    assert_eq!(
        Parser::parse("send 1~u16 from 2~u16 to 3~u16\nlet a = true;", &codes),
        Err(semicolon_at("let a = true;\n"))
    );
    assert_eq!(
        Parser::parse("do { match event 1~u16 }", &codes),
        Err(semicolon_at(" }\n"))
    );
    assert_eq!(Parser::parse("let a = true", &codes), Err(semicolon_at("\n")));
    assert_eq!(
        Parser::parse("let a = true;\nset a to false on 1~u16 from 2~u16 // no end", &codes),
        Err(semicolon_at(""))
    );
}

#[test]
fn slot_of_not_is_any_block() {
    let constants = Constants::new();
    let one = |value| single(Extractor::NoneExtractor, value);
    let filter = "ValueEqualToConstFilter";
    let direct = format!("not {{ {filter}(1~u16); }}.");
    let braced = format!("not {{ {{ {filter}(1~u16); }} }}.");
    let twice = format!("not{{not{{{filter}(1~u16);}}}}.");
    let pair = format!("not {{ or {{ {{ {filter}(1~u16); }}, not {{ {filter}(2~u16); }} }} }}.");
    assert_eq!(block(&constants, &direct), Ok((".", Matcher::Not(Box::new(one(1))))));
    assert_eq!(block(&constants, &braced), Ok((".", Matcher::Not(Box::new(one(1))))));
    assert_eq!(
        block(&constants, &twice),
        Ok((".", Matcher::Not(Box::new(Matcher::Not(Box::new(one(1)))))))
    );
    assert_eq!(
        block(&constants, &pair),
        Ok((
            ".",
            Matcher::Not(Box::new(Matcher::Or(
                Box::new(one(1)),
                Box::new(Matcher::Not(Box::new(one(2))))
            )))
        ))
    );
    let open = format!("not {{ {{ {filter}(1~u16); }} .");
    match recoverable(block(&constants, &open)) {
        ParserError::Base { kind: ErrorKind::Scanner(ScannerKind::Alt), child: Some(cause), .. } => {
            match *cause {
                ParserError::Alt(siblings) => assert_eq!(
                    siblings[0],
                    leaf(".", ErrorKind::Expected(Expectation::Symbol('}')))
                ),
                other => panic!("expected siblings, found {:?}", other),
            }
        }
        other => panic!("expected the failure of a choice, found {:?}", other),
    }
    let broken = format!("not {{ or {{ {filter}(1~u16); }} }}");
    assert!(matches!(fatal(block(&constants, &broken)), ParserError::Base { .. }));
}

fn first_slot() -> Matcher {
    let one = |value| single(Extractor::NoneExtractor, value);
    Matcher::Or(Box::new(Matcher::Not(Box::new(one(1)))), Box::new(one(2)))
}

fn second_slot() -> Matcher {
    single(Extractor::EventCodeExtractor, 3)
}

#[test]
fn whole_blocks_nest_in_the_order_of_the_text() {
    let constants = Constants::new();
    let t1 = "or{not{ValueEqualToConstFilter(1~u16);},{ValueEqualToConstFilter(2~u16);}}";
    let t2 = "{ EventCodeExtractor(); ValueEqualToConstFilter(3~u16); }";
    assert_eq!(block(&constants, t1), Ok(("", first_slot())));
    assert_eq!(block(&constants, t2), Ok(("", second_slot())));
    for rest in ["", " rest", "}", ", {", "abc"] {
        let and = format!("and {{ {t1} , {t2} }}{rest}");
        let or = format!("or {{ {t2} , {t1} }}{rest}");
        let not = format!("not {{ {t1} }}{rest}");
        assert_eq!(
            block(&constants, &and),
            Ok((rest, Matcher::And(Box::new(first_slot()), Box::new(second_slot()))))
        );
        assert_eq!(
            block(&constants, &or),
            Ok((rest, Matcher::Or(Box::new(second_slot()), Box::new(first_slot()))))
        );
        assert_eq!(block(&constants, &not), Ok((rest, Matcher::Not(Box::new(first_slot())))));
    }
}
