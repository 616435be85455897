//! A tokenizer that is driven by a table of regular expressions.
use crate::literal::{digits_value, has_prefix, is_number_text};
use crate::text::{is_hex_digit, str_equal};
use vstd::prelude::*;
use vstd::string::*;

verus! {

/// A token that the tokenizer hands out.
#[derive(Debug, PartialEq, Eq)]
pub enum Token {
    Keyword(KeywordToken),
    Symbol(SymbolToken),
    Data(DataToken),
    Text(String),
}

/// A word that the tokenizer knows.
#[derive(Debug, Clone, Copy, PartialEq, Eq)]
pub enum KeywordToken {
    Store,
    Let,
    Send,
    From,
    To,
    Do,
    Match,
    Event,
    Producer,
    Fire,
}

/// A value that is written out.
#[derive(Debug, Clone, Copy, PartialEq, Eq)]
pub enum DataToken {
    Integer(i64),
    Boolean(bool),
}

/// A punctuation mark.
#[derive(Debug, Clone, Copy, PartialEq, Eq)]
pub enum SymbolToken {
    Semicolon,
    Colon,
    Comma,
    OpenParenthesis,
    CloseParenthesis,
    OpenBrace,
    CloseBrace,
    EqualSign,
}

/// The model of a [`Token`].
pub ghost enum SpecToken {
    Keyword(KeywordToken),
    Symbol(SymbolToken),
    Data(DataToken),
    Text(Seq<char>),
}

impl DeepView for Token {
    type V = SpecToken;

    open spec fn deep_view(&self) -> SpecToken {
        match self {
            Token::Keyword(k) => SpecToken::Keyword(*k),
            Token::Symbol(s) => SpecToken::Symbol(*s),
            Token::Data(d) => SpecToken::Data(*d),
            Token::Text(t) => SpecToken::Text(t@),
        }
    }
}

/// The tokenizer.
pub struct Tokenizer {}

/// `regex::Error`: why a regular expression was not accepted. Nothing is
/// known of what it holds.
#[verifier::external_type_specification]
#[verifier::external_body]
pub struct ExRegexError(regex::Error);

/// Why a text could not be cut into tokens.
#[derive(Debug)]
pub enum TokenizerError {
    /// A regular expression of the table was not accepted.
    LexerError(regex::Error),
    /// A text that is no token.
    UnexpectedText(String),
    /// A number that does not fit 64 bits.
    InvalidInteger(String),
}

impl From<regex::Error> for TokenizerError {
    fn from(err: regex::Error) -> (e: TokenizerError)
        ensures
            e == TokenizerError::LexerError(err),
    {
        TokenizerError::LexerError(err)
    }
}

impl vstd::std_specs::convert::FromSpecImpl<regex::Error> for TokenizerError {
    open spec fn obeys_from_spec() -> bool {
        true
    }

    open spec fn from_spec(err: regex::Error) -> TokenizerError {
        TokenizerError::LexerError(err)
    }
}

/// The model of a [`TokenizerError`].
pub ghost enum SpecTokenizerError {
    LexerError,
    UnexpectedText(Seq<char>),
    InvalidInteger(Seq<char>),
}

impl DeepView for TokenizerError {
    type V = SpecTokenizerError;

    open spec fn deep_view(&self) -> SpecTokenizerError {
        match self {
            TokenizerError::LexerError(_) => SpecTokenizerError::LexerError,
            TokenizerError::UnexpectedText(t) => SpecTokenizerError::UnexpectedText(t@),
            TokenizerError::InvalidInteger(t) => SpecTokenizerError::InvalidInteger(t@),
        }
    }
}

/// The regular expressions of the tokens. Of those that match the longest
/// text, the last one decides. The first matches any one character, so that
/// some expression matches wherever text is left.
pub open spec fn token_patterns() -> Seq<Seq<char>> {
    seq![
        "(?s)."@,
        "\\s+"@,
        "//.*\n"@,
        "(_|[a-zA-Z])[a-zA-Z_0-9]*"@,
        "store"@,
        "let"@,
        "send"@,
        "from"@,
        "to"@,
        "do"@,
        "match"@,
        "event"@,
        "producer"@,
        "fire"@,
        ";"@,
        ":"@,
        ","@,
        "\\("@,
        "\\)"@,
        "\\{"@,
        "\\}"@,
        "="@,
        "-?[0-9]+"@,
        "0x[0-9a-f]+"@,
        "(true|false)"@,
    ]
}

/// The regular expressions of the tokens.
pub fn patterns() -> (table: Vec<&'static str>)
    ensures
        table.deep_view() == token_patterns(),
{
    let table = vec![
        "(?s).",
        "\\s+",
        "//.*\n",
        "(_|[a-zA-Z])[a-zA-Z_0-9]*",
        "store",
        "let",
        "send",
        "from",
        "to",
        "do",
        "match",
        "event",
        "producer",
        "fire",
        ";",
        ":",
        ",",
        "\\(",
        "\\)",
        "\\{",
        "\\}",
        "=",
        "-?[0-9]+",
        "0x[0-9a-f]+",
        "(true|false)",
    ];
    proof {
        assert(table.deep_view() =~= token_patterns());
    }
    table
}

/// The piece that the expression at `rule` matched: every piece is kept.
pub fn lexeme(rule: usize, found: &str) -> (piece: Option<(usize, String)>)
    ensures
        piece.deep_view() == Some((rule, found@)),
{
    Some((rule, found.to_owned()))
}

/// What `regex_lexer` cuts a text into with a table of regular expressions:
/// for each piece the index of the expression that matched it and the
/// piece, in the order of the text; or nothing where an expression of the
/// table is not accepted.
pub uninterp spec fn lexemes_of(patterns: Seq<Seq<char>>, text: Seq<char>) -> Option<
    Seq<(usize, Seq<char>)>,
>;

/// Builds a lexer of `regex_lexer` with one token for each expression of
/// `patterns`, and runs it on `text`. At each place the lexer takes the
/// longest match of any expression, and of several expressions with that
/// match the last. It stops where no expression matches: with the table of
/// this module, whose first expression matches any character, only at the
/// end of the text.
#[verifier::external_body]
fn scan(patterns: &Vec<&'static str>, text: &str) -> (r: Result<
    Vec<(usize, String)>,
    regex::Error,
>)
    requires
        patterns.deep_view() == token_patterns(),
    ensures
        match r {
            Ok(lexemes) => lexemes_of(patterns.deep_view(), text@) == Some(lexemes.deep_view()),
            Err(_) => lexemes_of(patterns.deep_view(), text@) is None,
        },
{
    let mut builder = regex_lexer::LexerBuilder::new();
    for (rule, pattern) in patterns.iter().enumerate() {
        builder = builder.token(pattern, move |found: &str| lexeme(rule, found));
    }
    Ok(builder.build()?.tokens(text).collect())
}

/// The number that digits with a sign before them write in base `radix`.
pub open spec fn signed_digits_value(s: Seq<char>, radix: nat) -> Option<int> {
    if s.len() > 0 && s[0] == '-' {
        match digits_value(s.skip(1), radix) {
            Some(v) => Some(-(v as int)),
            None => None,
        }
    } else {
        match digits_value(s, radix) {
            Some(v) => Some(v as int),
            None => None,
        }
    }
}

/// The number that `s` writes: hexadecimal after `0x`, binary after `0b`,
/// decimal otherwise, and negative where `-` stands before the digits.
pub open spec fn signed_number_value(s: Seq<char>) -> Option<int> {
    if has_prefix(s, 'x') {
        signed_digits_value(s.skip(2), 16)
    } else if has_prefix(s, 'b') {
        signed_digits_value(s.skip(2), 2)
    } else {
        signed_digits_value(s, 10)
    }
}

/// Calls `parse_int::parse::<i64>`. On a text of hexadecimal digits, `x` and
/// `-` that function takes the digits after `0x` in base 16, those after
/// `0b` in base 2 and any other text in base 10, with std's
/// `from_str_radix`, which takes one `-` before the digits as the sign: it
/// gives the number written where that fits the type, and fails on an empty
/// digit text, on a character that is no digit of the base and on a number
/// that does not fit.
#[verifier::external_body]
fn parse_i64(text: &str) -> (r: Option<i64>)
    requires
        is_number_text(text@),
    ensures
        r matches Some(v) ==> signed_number_value(text@) == Some(v as int),
        r is None ==> (signed_number_value(text@) matches Some(v) ==> v < i64::MIN || v
            > i64::MAX),
{
    parse_int::parse::<i64>(text).ok()
}

/// The number that `s` writes, where it can be written in 64 bits.
pub open spec fn integer_of(s: Seq<char>) -> Option<i64> {
    if !is_number_text(s) {
        None
    } else {
        match signed_number_value(s) {
            Some(v) => if i64::MIN <= v <= i64::MAX {
                Some(v as i64)
            } else {
                None
            },
            None => None,
        }
    }
}

/// The token that the expression at `rule` makes of the text `found` that
/// it matched: nothing for blank space and comments.
pub open spec fn spec_token(rule: usize, found: Seq<char>) -> Result<
    Option<SpecToken>,
    SpecTokenizerError,
> {
    if rule == 1 || rule == 2 {
        Ok(None)
    } else if rule == 3 {
        Ok(Some(SpecToken::Text(found)))
    } else if 4 <= rule <= 13 {
        Ok(Some(SpecToken::Keyword(keyword_at(rule))))
    } else if 14 <= rule <= 21 {
        Ok(Some(SpecToken::Symbol(symbol_at(rule))))
    } else if rule == 22 || rule == 23 {
        match integer_of(found) {
            Some(v) => Ok(Some(SpecToken::Data(DataToken::Integer(v)))),
            None => Err(SpecTokenizerError::InvalidInteger(found)),
        }
    } else if rule == 24 && found == "true"@ {
        Ok(Some(SpecToken::Data(DataToken::Boolean(true))))
    } else if rule == 24 && found == "false"@ {
        Ok(Some(SpecToken::Data(DataToken::Boolean(false))))
    } else {
        Err(SpecTokenizerError::UnexpectedText(found))
    }
}

/// The keyword of the expression at `rule`.
pub open spec fn keyword_at(rule: usize) -> KeywordToken {
    if rule == 4 {
        KeywordToken::Store
    } else if rule == 5 {
        KeywordToken::Let
    } else if rule == 6 {
        KeywordToken::Send
    } else if rule == 7 {
        KeywordToken::From
    } else if rule == 8 {
        KeywordToken::To
    } else if rule == 9 {
        KeywordToken::Do
    } else if rule == 10 {
        KeywordToken::Match
    } else if rule == 11 {
        KeywordToken::Event
    } else if rule == 12 {
        KeywordToken::Producer
    } else {
        KeywordToken::Fire
    }
}

/// The symbol of the expression at `rule`.
pub open spec fn symbol_at(rule: usize) -> SymbolToken {
    if rule == 14 {
        SymbolToken::Semicolon
    } else if rule == 15 {
        SymbolToken::Colon
    } else if rule == 16 {
        SymbolToken::Comma
    } else if rule == 17 {
        SymbolToken::OpenParenthesis
    } else if rule == 18 {
        SymbolToken::CloseParenthesis
    } else if rule == 19 {
        SymbolToken::OpenBrace
    } else if rule == 20 {
        SymbolToken::CloseBrace
    } else {
        SymbolToken::EqualSign
    }
}

/// The tokens that the pieces `lexemes` make, in order, or the failure of
/// the first piece that makes none.
pub open spec fn tokens_of(lexemes: Seq<(usize, Seq<char>)>) -> Result<
    Seq<SpecToken>,
    SpecTokenizerError,
>
    decreases lexemes.len(),
{
    if lexemes.len() == 0 {
        Ok(Seq::empty())
    } else {
        match tokens_of(lexemes.drop_last()) {
            Ok(before) => match spec_token(lexemes.last().0, lexemes.last().1) {
                Ok(Some(token)) => Ok(before.push(token)),
                Ok(None) => Ok(before),
                Err(e) => Err(e),
            },
            Err(e) => Err(e),
        }
    }
}

/// The failure of a piece among the first `n` is the failure of them all.
pub proof fn lemma_tokens_failure(lexemes: Seq<(usize, Seq<char>)>, n: int)
    requires
        0 <= n <= lexemes.len(),
        tokens_of(lexemes.take(n)) is Err,
    ensures
        tokens_of(lexemes) == tokens_of(lexemes.take(n)),
    decreases lexemes.len(),
{
    if n == lexemes.len() {
        assert(lexemes.take(n) =~= lexemes);
    } else {
        assert(lexemes.drop_last().take(n) =~= lexemes.take(n));
        lemma_tokens_failure(lexemes.drop_last(), n);
    }
}

/// Tests whether `text` holds nothing but hexadecimal digits, `x` and `-`.
fn only_number_characters(text: &str) -> (b: bool)
    ensures
        b == is_number_text(text@),
{
    let len = text.unicode_len();
    let mut i: usize = 0;
    while i < len
        invariant
            len == text@.len(),
            i <= len,
            forall|j: int|
                0 <= j < i ==> is_hex_digit(#[trigger] text@[j]) || text@[j] == 'x' || text@[j]
                    == '-',
        decreases len - i,
    {
        let c = text.get_char(i);
        let digit = ('0' <= c && c <= '9') || ('a' <= c && c <= 'f') || ('A' <= c && c <= 'F');
        if !(digit || c == 'x' || c == '-') {
            return false;
        }
        i = i + 1;
    }
    true
}

/// The number that `text` writes, where it can be written in 64 bits.
pub fn integer(text: &str) -> (r: Option<i64>)
    ensures
        r == integer_of(text@),
{
    if !only_number_characters(text) {
        return None;
    }
    parse_i64(text)
}

/// The keyword of the expression at `rule`.
fn keyword_of(rule: usize) -> (k: KeywordToken)
    ensures
        k == keyword_at(rule),
{
    if rule == 4 {
        KeywordToken::Store
    } else if rule == 5 {
        KeywordToken::Let
    } else if rule == 6 {
        KeywordToken::Send
    } else if rule == 7 {
        KeywordToken::From
    } else if rule == 8 {
        KeywordToken::To
    } else if rule == 9 {
        KeywordToken::Do
    } else if rule == 10 {
        KeywordToken::Match
    } else if rule == 11 {
        KeywordToken::Event
    } else if rule == 12 {
        KeywordToken::Producer
    } else {
        KeywordToken::Fire
    }
}

/// The symbol of the expression at `rule`.
fn symbol_of(rule: usize) -> (s: SymbolToken)
    ensures
        s == symbol_at(rule),
{
    if rule == 14 {
        SymbolToken::Semicolon
    } else if rule == 15 {
        SymbolToken::Colon
    } else if rule == 16 {
        SymbolToken::Comma
    } else if rule == 17 {
        SymbolToken::OpenParenthesis
    } else if rule == 18 {
        SymbolToken::CloseParenthesis
    } else if rule == 19 {
        SymbolToken::OpenBrace
    } else if rule == 20 {
        SymbolToken::CloseBrace
    } else {
        SymbolToken::EqualSign
    }
}

/// The model of the result `r`.
pub open spec fn tokenized<T: DeepView>(r: Result<T, TokenizerError>) -> Result<
    T::V,
    SpecTokenizerError,
> {
    match r {
        Ok(v) => Ok(v.deep_view()),
        Err(e) => Err(e.deep_view()),
    }
}

/// The token that the expression at `rule` makes of the text `found`.
pub fn token(rule: usize, found: &str) -> (r: Result<Option<Token>, TokenizerError>)
    ensures
        tokenized(r) == spec_token(rule, found@),
{
    if rule == 1 || rule == 2 {
        Ok(None)
    } else if rule == 3 {
        Ok(Some(Token::Text(found.to_owned())))
    } else if 4 <= rule && rule <= 13 {
        Ok(Some(Token::Keyword(keyword_of(rule))))
    } else if 14 <= rule && rule <= 21 {
        Ok(Some(Token::Symbol(symbol_of(rule))))
    } else if rule == 22 || rule == 23 {
        match integer(found) {
            Some(v) => Ok(Some(Token::Data(DataToken::Integer(v)))),
            None => Err(TokenizerError::InvalidInteger(found.to_owned())),
        }
    } else if rule == 24 && str_equal(found, "true") {
        Ok(Some(Token::Data(DataToken::Boolean(true))))
    } else if rule == 24 && str_equal(found, "false") {
        Ok(Some(Token::Data(DataToken::Boolean(false))))
    } else {
        Err(TokenizerError::UnexpectedText(found.to_owned()))
    }
}

/// The tokens that the pieces `lexemes` make: each piece is the index of
/// an expression in the table and the text that it matched. Blank space and
/// comments make no token. A piece that only the first expression matched
/// fails as a text that is no token, and a number that does not fit 64 bits
/// as a number that is not valid.
pub fn to_tokens(lexemes: &Vec<(usize, String)>) -> (r: Result<Vec<Token>, TokenizerError>)
    ensures
        tokenized(r) == tokens_of(lexemes.deep_view()),
{
    let ghost all = lexemes.deep_view();
    let mut tokens: Vec<Token> = Vec::new();
    let mut i: usize = 0;
    proof {
        assert(all.take(0) =~= Seq::empty());
        assert(tokens.deep_view() =~= Seq::empty());
    }
    while i < lexemes.len()
        invariant
            i <= lexemes.len(),
            all == lexemes.deep_view(),
            all.len() == lexemes.len(),
            tokens_of(all.take(i as int)) == Ok::<Seq<SpecToken>, SpecTokenizerError>(
                tokens.deep_view(),
            ),
        decreases lexemes.len() - i,
    {
        proof {
            let next = all.take(i + 1);
            assert(next.last() == lexemes@[i as int].deep_view());
            assert(next.drop_last() =~= all.take(i as int));
        }
        let ghost before = tokens.deep_view();
        match token(lexemes[i].0, lexemes[i].1.as_str()) {
            Ok(Some(made)) => {
                tokens.push(made);
                proof {
                    assert(tokens.deep_view() =~= before.push(made.deep_view()));
                }
            },
            Ok(None) => {},
            Err(e) => {
                proof {
                    lemma_tokens_failure(all, i + 1);
                }
                return Err(e);
            },
        }
        i = i + 1;
    }
    proof {
        assert(all.take(i as int) =~= all);
    }
    Ok(tokens)
}

/// The tokens of `text`, where the table of expressions is accepted.
pub open spec fn spec_tokenize(text: Seq<char>) -> Result<Seq<SpecToken>, SpecTokenizerError> {
    match lexemes_of(token_patterns(), text) {
        Some(lexemes) => tokens_of(lexemes),
        None => Err(SpecTokenizerError::LexerError),
    }
}

impl Tokenizer {
    /// Cuts `text` into tokens: names, the keywords `store`, `let`, `send`,
    /// `from`, `to`, `do`, `match`, `event`, `producer` and `fire`, the
    /// symbols `;:,(){}=`, decimal and hexadecimal integers, `true` and
    /// `false`. Blank space and comments from `//` to the end of the line
    /// are left out.
    pub fn tokenize(text: &str) -> (r: Result<Vec<Token>, TokenizerError>)
        ensures
            tokenized(r) == spec_tokenize(text@),
    {
        let table = patterns();
        match scan(&table, text) {
            Ok(lexemes) => to_tokens(&lexemes),
            Err(e) => Err(TokenizerError::from(e)),
        }
    }
}

} // verus!
