use ross_dsl::error::{ErrorKind, Expectation, Failure, ParserError};
use ross_dsl::literal::{literal, Literal};

fn literal_failure(text: &str) -> (String, ErrorKind, Option<Box<ParserError>>) {
    match literal(text) {
        Err(Failure::Recoverable(ParserError::Base { location, kind, child })) => {
            (location, kind, child)
        }
        other => panic!("expected a recoverable failure, found {:?}", other),
    }
}

#[test]
fn hex_u8_test() {
    assert_eq!(literal("0xab~u8;input"), Ok((";input", Literal::U8(0xab))));
}

#[test]
fn hex_u8_invalid_value_test() {
    let (location, kind, child) = literal_failure("0xabab~u8;input");
    assert_eq!(location, "0xabab");
    assert_eq!(kind, ErrorKind::Expected(Expectation::Value));
    assert_eq!(child, None);
}

#[test]
fn hex_u16_test() {
    assert_eq!(literal("0xabab~u16;input"), Ok((";input", Literal::U16(0xabab))));
}

#[test]
fn hex_u16_invalid_value_test() {
    let (location, kind, child) = literal_failure("0xababab~u16;input");
    assert_eq!(location, "0xababab");
    assert_eq!(kind, ErrorKind::Expected(Expectation::Value));
    assert_eq!(child, None);
}

#[test]
fn literal_hex_u32_test() {
    assert_eq!(
        literal("0xabababab~u32;input"),
        Ok((";input", Literal::U32(0xabab_abab)))
    );
}

#[test]
fn hex_u32_invalid_value_test() {
    let (location, kind, child) = literal_failure("0xababababab~u32;input");
    assert_eq!(location, "0xababababab");
    assert_eq!(kind, ErrorKind::Expected(Expectation::Value));
    assert_eq!(child, None);
}

#[test]
fn decimal_u8_test() {
    assert_eq!(literal("123~u8;input"), Ok((";input", Literal::U8(123))));
}

#[test]
fn decimal_u8_negative_test() {
    let (location, kind, child) = literal_failure("-123~u8;input");
    assert_eq!(location, "-123");
    assert_eq!(kind, ErrorKind::Expected(Expectation::Value));
    assert_eq!(child, None);
}

#[test]
fn decimal_u16_test() {
    assert_eq!(literal("123~u16;input"), Ok((";input", Literal::U16(123))));
}

#[test]
fn decimal_u16_negative_test() {
    let (location, kind, child) = literal_failure("-123~u16;input");
    assert_eq!(location, "-123");
    assert_eq!(kind, ErrorKind::Expected(Expectation::Value));
    assert_eq!(child, None);
}

#[test]
fn decimal_u32_test() {
    assert_eq!(literal("123~u32;input"), Ok((";input", Literal::U32(123))));
}

#[test]
fn decimal_u32_negative_test() {
    let (location, kind, child) = literal_failure("-123~u32;input");
    assert_eq!(location, "-123");
    assert_eq!(kind, ErrorKind::Expected(Expectation::Value));
    assert_eq!(child, None);
}

#[test]
fn bool_true_test() {
    assert_eq!(literal("true;input"), Ok((";input", Literal::Bool(true))));
}

#[test]
fn bool_false_test() {
    assert_eq!(literal("false;input"), Ok((";input", Literal::Bool(false))));
}

#[test]
fn string_test() {
    match literal("\"This is a string\";input") {
        Ok((";input", Literal::String(string))) => {
            assert_eq!(string, "This is a string");
        }
        other => panic!("expected a string, found {:?}", other),
    }
}

#[test]
fn rgb_test() {
    match literal("#01234567;input") {
        Ok((";input", Literal::Rgb(r, g, b, brightness))) => {
            assert_eq!(r, 0x01);
            assert_eq!(g, 0x23);
            assert_eq!(b, 0x45);
            assert_eq!(brightness, 0x67);
        }
        other => panic!("expected a colour, found {:?}", other),
    }
}

#[test]
fn rgbw_test() {
    match literal("#0123456789;input") {
        Ok((";input", Literal::Rgbw(r, g, b, w, brightness))) => {
            assert_eq!(r, 0x01);
            assert_eq!(g, 0x23);
            assert_eq!(b, 0x45);
            assert_eq!(w, 0x67);
            assert_eq!(brightness, 0x89);
        }
        other => panic!("expected a colour, found {:?}", other),
    }
}

#[test]
fn no_tilde_test() {
    let (location, kind, child) = literal_failure("0xababu16;input");
    assert_eq!(location, "0xababu16;input");
    assert_eq!(kind, ErrorKind::Expected(Expectation::Literal));
    assert!(matches!(child, Some(_)));
}

#[test]
fn double_tilde_test() {
    let (location, kind, child) = literal_failure("0xabab~~u16;input");
    assert_eq!(location, "0xabab~~u16;input");
    assert_eq!(kind, ErrorKind::Expected(Expectation::Literal));
    assert!(matches!(child, Some(_)));
}

#[test]
fn no_type_test() {
    let (location, kind, child) = literal_failure("0xabab~");
    assert_eq!(location, "0xabab~");
    assert_eq!(kind, ErrorKind::Expected(Expectation::Literal));
    assert!(matches!(child, Some(_)));
}

#[test]
fn invalid_type1_test() {
    let (location, kind, child) = literal_failure("0xabab~u15");
    assert_eq!(location, "u15");
    assert_eq!(kind, ErrorKind::Expected(Expectation::Type));
    assert_eq!(child, None);
}

#[test]
fn invalid_type2_test() {
    let (location, kind, child) = literal_failure("0xabab~u");
    assert_eq!(location, "u");
    assert_eq!(kind, ErrorKind::Expected(Expectation::Type));
    assert_eq!(child, None);
}

#[test]
fn unexpected_token_test() {
    let (location, kind, child) = literal_failure("asdasd");
    assert_eq!(location, "asdasd");
    assert_eq!(kind, ErrorKind::Expected(Expectation::Literal));
    assert!(matches!(child, Some(_)));
}

#[test]
fn empty_test() {
    let (location, kind, child) = literal_failure("");
    assert_eq!(location, "");
    assert_eq!(kind, ErrorKind::Expected(Expectation::Literal));
    assert!(matches!(child, Some(_)));
}
