use ross_dsl::error::{ErrorKind, Expectation, Failure, ParserError};
use ross_dsl::literal::Literal;
use ross_dsl::statement::const_statement::const_statement;
use ross_dsl::statement::let_statement::let_statement;

fn base_of(error: ParserError) -> (String, ErrorKind, Option<Box<ParserError>>) {
    match error {
        ParserError::Base { location, kind, child } => (location, kind, child),
        other => panic!("expected one failure, found {:?}", other),
    }
}

fn recoverable_binding(
    result: Result<(&str, (&str, Literal)), Failure>,
) -> (String, ErrorKind, Option<Box<ParserError>>) {
    match result {
        Err(Failure::Recoverable(error)) => base_of(error),
        other => panic!("expected a recoverable failure, found {:?}", other),
    }
}

fn fatal_binding(
    result: Result<(&str, (&str, Literal)), Failure>,
) -> (String, ErrorKind, Option<Box<ParserError>>) {
    match result {
        Err(Failure::Fatal(error)) => base_of(error),
        other => panic!("expected a fatal failure, found {:?}", other),
    }
}

#[test]
fn const_statement_hex_u32_test() {
    assert_eq!(
        const_statement("const state = 0xabababab~u32;input"),
        Ok(("input", ("state", Literal::U32(0xabab_abab))))
    );
}

#[test]
fn const_statement_bool_test() {
    assert_eq!(
        const_statement("const state = false;input"),
        Ok(("input", ("state", Literal::Bool(false))))
    );
}

#[test]
fn const_statement_weird_spacing1_test() {
    assert_eq!(
        const_statement("const state=0xabababab~u32;input"),
        Ok(("input", ("state", Literal::U32(0xabab_abab))))
    );
}

#[test]
fn const_statement_weird_spacing2_test() {
    assert_eq!(
        const_statement("const  state  =  0xabababab~u32;input"),
        Ok(("input", ("state", Literal::U32(0xabab_abab))))
    );
}

#[test]
fn const_statement_only_keyword_test() {
    let (location, kind, child) = recoverable_binding(const_statement("const;input"));
    assert_eq!(location, ";input");
    assert_eq!(kind, ErrorKind::Expected(Expectation::MultiSpace));
    assert_eq!(child, None);
}

#[test]
fn const_statement_invalid_name_test() {
    let (location, kind, child) =
        recoverable_binding(const_statement("const 1state = 0xabababab~u32;input"));
    assert_eq!(location, "1state = 0xabababab~u32;input");
    assert_eq!(kind, ErrorKind::Expected(Expectation::Name));
    assert!(matches!(child, Some(_)));
}

#[test]
fn const_statement_wrong_keyword_test() {
    let (location, kind, child) =
        recoverable_binding(const_statement("let state = 0xabababab~u32;input"));
    assert_eq!(location, "let");
    assert_eq!(kind, ErrorKind::Expected(Expectation::Keyword("const")));
    assert_eq!(child, None);
}

#[test]
fn let_statement_hex_u32_test() {
    assert_eq!(
        let_statement("let state = 0xabababab~u32;input"),
        Ok(("input", ("state", Literal::U32(0xabab_abab))))
    );
}

#[test]
fn let_statement_bool_test() {
    assert_eq!(
        let_statement("let state = false;input"),
        Ok(("input", ("state", Literal::Bool(false))))
    );
}

#[test]
fn let_statement_weird_spacing1_test() {
    assert_eq!(
        let_statement("let state=0xabababab~u32;input"),
        Ok(("input", ("state", Literal::U32(0xabab_abab))))
    );
}

#[test]
fn let_statement_weird_spacing2_test() {
    assert_eq!(
        let_statement("let  state  =  0xabababab~u32;input"),
        Ok(("input", ("state", Literal::U32(0xabab_abab))))
    );
}

#[test]
fn let_statement_only_keyword_test() {
    let (location, kind, child) = fatal_binding(let_statement("let;input"));
    assert_eq!(location, ";input");
    assert_eq!(kind, ErrorKind::Expected(Expectation::MultiSpace));
    assert_eq!(child, None);
}

#[test]
fn let_statement_invalid_name_test() {
    let (location, kind, child) =
        fatal_binding(let_statement("let 1state = 0xabababab~u32;input"));
    assert_eq!(location, "1state = 0xabababab~u32;input");
    assert_eq!(kind, ErrorKind::Expected(Expectation::Name));
    assert!(matches!(child, Some(_)));
}

#[test]
fn let_statement_wrong_keyword_test() {
    let (location, kind, child) =
        recoverable_binding(let_statement("const state = 0xabababab~u32;input"));
    assert_eq!(location, "const");
    assert_eq!(kind, ErrorKind::Expected(Expectation::Keyword("let")));
    assert_eq!(child, None);
}
