//! The tokens of the language.
use vstd::prelude::*;

verus! {

/// A token of the language.
#[derive(Debug, PartialEq)]
pub enum Token {
    Keyword(KeywordToken),
    Symbol(SymbolToken),
    Data(DataToken),
    Text(String),
}

/// A word that the language reserves.
#[derive(Debug, PartialEq)]
pub enum KeywordToken {
    Let,
    Const,
    Send,
    From,
    To,
    If,
    Do,
    Match,
    Event,
    Producer,
    Tick,
    Fire,
}

/// A value that is written out.
#[derive(Debug, PartialEq)]
pub enum DataToken {
    Integer(i64),
    Boolean(bool),
}

/// A punctuation mark.
#[derive(Debug, PartialEq)]
pub enum SymbolToken {
    Semicolon,
    Tilde,
    Comma,
    OpenParenthesis,
    CloseParenthesis,
    OpenBrace,
    CloseBrace,
    EqualSign,
}

impl From<KeywordToken> for Token {
    fn from(keyword: KeywordToken) -> (token: Token)
        ensures
            token == Token::Keyword(keyword),
    {
        Token::Keyword(keyword)
    }
}

impl vstd::std_specs::convert::FromSpecImpl<KeywordToken> for Token {
    open spec fn obeys_from_spec() -> bool {
        true
    }

    open spec fn from_spec(keyword: KeywordToken) -> Token {
        Token::Keyword(keyword)
    }
}

impl From<DataToken> for Token {
    fn from(data: DataToken) -> (token: Token)
        ensures
            token == Token::Data(data),
    {
        Token::Data(data)
    }
}

impl vstd::std_specs::convert::FromSpecImpl<DataToken> for Token {
    open spec fn obeys_from_spec() -> bool {
        true
    }

    open spec fn from_spec(data: DataToken) -> Token {
        Token::Data(data)
    }
}

impl From<SymbolToken> for Token {
    fn from(symbol: SymbolToken) -> (token: Token)
        ensures
            token == Token::Symbol(symbol),
    {
        Token::Symbol(symbol)
    }
}

impl vstd::std_specs::convert::FromSpecImpl<SymbolToken> for Token {
    open spec fn obeys_from_spec() -> bool {
        true
    }

    open spec fn from_spec(symbol: SymbolToken) -> Token {
        Token::Symbol(symbol)
    }
}

} // verus!
