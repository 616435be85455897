use ross_dsl::token;
use ross_dsl::tokenizer::{
    integer, patterns, to_tokens, DataToken, KeywordToken, SymbolToken, Token, Tokenizer,
    TokenizerError,
};

#[test]
fn statement_is_cut_into_tokens() {
    assert_eq!(
        Tokenizer::tokenize("store button: u32 = 0x00;").unwrap(),
        vec![
            Token::Keyword(KeywordToken::Store),
            Token::Text("button".to_string()),
            Token::Symbol(SymbolToken::Colon),
            Token::Text("u32".to_string()),
            Token::Symbol(SymbolToken::EqualSign),
            Token::Data(DataToken::Integer(0)),
            Token::Symbol(SymbolToken::Semicolon),
        ]
    );
}

#[test]
fn every_keyword_and_symbol_is_a_token() {
    assert_eq!(
        Tokenizer::tokenize("store let send from to do match event producer fire").unwrap(),
        vec![
            Token::Keyword(KeywordToken::Store),
            Token::Keyword(KeywordToken::Let),
            Token::Keyword(KeywordToken::Send),
            Token::Keyword(KeywordToken::From),
            Token::Keyword(KeywordToken::To),
            Token::Keyword(KeywordToken::Do),
            Token::Keyword(KeywordToken::Match),
            Token::Keyword(KeywordToken::Event),
            Token::Keyword(KeywordToken::Producer),
            Token::Keyword(KeywordToken::Fire),
        ]
    );
    assert_eq!(
        Tokenizer::tokenize(";:,(){}=").unwrap(),
        vec![
            Token::Symbol(SymbolToken::Semicolon),
            Token::Symbol(SymbolToken::Colon),
            Token::Symbol(SymbolToken::Comma),
            Token::Symbol(SymbolToken::OpenParenthesis),
            Token::Symbol(SymbolToken::CloseParenthesis),
            Token::Symbol(SymbolToken::OpenBrace),
            Token::Symbol(SymbolToken::CloseBrace),
            Token::Symbol(SymbolToken::EqualSign),
        ]
    );
}

#[test]
fn longest_match_decides_and_then_the_last_expression() {
    assert_eq!(
        Tokenizer::tokenize("let letter _x true truex false 0x1f -12 0xFF").unwrap(),
        vec![
            Token::Keyword(KeywordToken::Let),
            Token::Text("letter".to_string()),
            Token::Text("_x".to_string()),
            Token::Data(DataToken::Boolean(true)),
            Token::Text("truex".to_string()),
            Token::Data(DataToken::Boolean(false)),
            Token::Data(DataToken::Integer(31)),
            Token::Data(DataToken::Integer(-12)),
            Token::Data(DataToken::Integer(0)),
            Token::Text("xFF".to_string()),
        ]
    );
}

#[test]
fn comments_and_blank_space_make_no_token() {
    assert_eq!(
        Tokenizer::tokenize("// a comment; let x\n\n  do // another\n\t{").unwrap(),
        vec![Token::Keyword(KeywordToken::Do), Token::Symbol(SymbolToken::OpenBrace)]
    );
    assert_eq!(Tokenizer::tokenize("").unwrap(), vec![]);
    assert_eq!(Tokenizer::tokenize(" \n\t").unwrap(), vec![]);
}

#[test]
fn text_that_is_no_token_fails() {
    assert!(matches!(
        Tokenizer::tokenize("let x ~ 1"),
        Err(TokenizerError::UnexpectedText(found)) if found == "~"
    ));
    assert!(matches!(
        Tokenizer::tokenize("// comment without an end"),
        Err(TokenizerError::UnexpectedText(found)) if found == "/"
    ));
    assert!(matches!(
        Tokenizer::tokenize("x\u{e9}"),
        Err(TokenizerError::UnexpectedText(found)) if found == "\u{e9}"
    ));
}

#[test]
fn number_that_does_not_fit_fails() {
    assert_eq!(
        Tokenizer::tokenize("9223372036854775807 -9223372036854775808").unwrap(),
        vec![
            Token::Data(DataToken::Integer(i64::MAX)),
            Token::Data(DataToken::Integer(i64::MIN)),
        ]
    );
    assert!(matches!(
        Tokenizer::tokenize("x = 9223372036854775808;"),
        Err(TokenizerError::InvalidInteger(found)) if found == "9223372036854775808"
    ));
    assert!(matches!(
        Tokenizer::tokenize("0xffffffffffffffffff"),
        Err(TokenizerError::InvalidInteger(_))
    ));
}

#[test]
fn integer_is_read_in_its_base() {
    assert_eq!(integer("0"), Some(0));
    assert_eq!(integer("-0"), Some(0));
    assert_eq!(integer("0x7fffffffffffffff"), Some(i64::MAX));
    assert_eq!(integer("0x-10"), Some(-16));
    assert_eq!(integer("0b-101"), Some(-5));
    assert_eq!(integer("-0x10"), None);
    assert_eq!(integer("--1"), None);
    assert_eq!(integer("-"), None);
    assert_eq!(integer(""), None);
    assert_eq!(integer("12 "), None);
    assert_eq!(integer("+12"), None);
    assert_eq!(integer("1_000"), None);
}

#[test]
fn pieces_make_tokens_in_order() {
    assert_eq!(patterns().len(), 25);
    let pieces = vec![
        (1, " ".to_string()),
        (5, "let".to_string()),
        (2, "// c\n".to_string()),
        (3, "name".to_string()),
        (21, "=".to_string()),
        (23, "0x10".to_string()),
        (24, "false".to_string()),
    ];
    assert_eq!(
        to_tokens(&pieces).unwrap(),
        vec![
            Token::Keyword(KeywordToken::Let),
            Token::Text("name".to_string()),
            Token::Symbol(SymbolToken::EqualSign),
            Token::Data(DataToken::Integer(16)),
            Token::Data(DataToken::Boolean(false)),
        ]
    );
    let failing = vec![
        (5, "let".to_string()),
        (0, "#".to_string()),
        (22, "99999999999999999999".to_string()),
    ];
    assert!(matches!(
        to_tokens(&failing),
        Err(TokenizerError::UnexpectedText(found)) if found == "#"
    ));
    assert!(matches!(
        to_tokens(&vec![(25, "x".to_string())]),
        Err(TokenizerError::UnexpectedText(_))
    ));
    assert!(matches!(
        to_tokens(&vec![(24, "maybe".to_string())]),
        Err(TokenizerError::UnexpectedText(_))
    ));
}

#[test]
fn kinds_of_token_convert_to_tokens() {
    assert_eq!(
        token::Token::from(token::KeywordToken::Tick),
        token::Token::Keyword(token::KeywordToken::Tick)
    );
    assert_eq!(
        token::Token::from(token::DataToken::Integer(-3)),
        token::Token::Data(token::DataToken::Integer(-3))
    );
    let symbol: token::Token = token::SymbolToken::Tilde.into();
    assert_eq!(symbol, token::Token::Symbol(token::SymbolToken::Tilde));
}
