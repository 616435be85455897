//! `let <name> = <literal>;` declares a state variable with its initial
//! value.
use crate::error::{cut, outcome, shorter, ErrorKind, Expectation, Failure, Outcome, ParserError};
use crate::keyword::{keyword, spec_keyword};
use crate::literal::{literal, spec_literal, Literal, SpecLiteral};
use crate::parser::{
    alpha_or_underscore1, multispace0, multispace1, name_parser, not_a_name, spec_multispace0,
    spec_multispace1, spec_name, spec_scan1,
};
use crate::statement::match_statement::{end, ended};
use crate::symbol::{spec_symbol, symbol, EQUAL_SIGN};
use crate::text::CharClass;
use vstd::prelude::*;
use vstd::string::*;

verus! {

/// The name that a declaration binds: a name where `strict`, and else a run
/// of letters and underscores. Either fails as a name that was expected.
pub open spec fn spec_declared_name(s: Seq<char>, strict: bool) -> Outcome<Seq<char>> {
    if strict {
        spec_name(s)
    } else {
        match spec_scan1(s, CharClass::AlphaOrUnderscore) {
            Outcome::Recoverable(_) => Outcome::Recoverable(not_a_name(s)),
            other => other,
        }
    }
}

/// What follows the keyword of a declaration: blank space, the name, `=`
/// with blank space around it, which may be missing, and a literal.
pub open spec fn spec_binding(s: Seq<char>, strict: bool) -> Outcome<(Seq<char>, SpecLiteral)> {
    match spec_multispace1(s) {
        Outcome::Parsed { rest, value } => match spec_declared_name(rest, strict) {
            Outcome::Parsed { rest, value: name } => match spec_symbol(
                spec_multispace0(rest),
                EQUAL_SIGN,
            ) {
                Outcome::Parsed { rest, value } => match spec_literal(spec_multispace0(rest)) {
                    Outcome::Parsed { rest, value } => Outcome::Parsed {
                        rest,
                        value: (name, value),
                    },
                    Outcome::Recoverable(e) => Outcome::Recoverable(e),
                    Outcome::Fatal(e) => Outcome::Fatal(e),
                },
                Outcome::Recoverable(e) => Outcome::Recoverable(e),
                Outcome::Fatal(e) => Outcome::Fatal(e),
            },
            Outcome::Recoverable(e) => Outcome::Recoverable(e),
            Outcome::Fatal(e) => Outcome::Fatal(e),
        },
        Outcome::Recoverable(e) => Outcome::Recoverable(e),
        Outcome::Fatal(e) => Outcome::Fatal(e),
    }
}

/// `let <name> = <literal>;`. After `let` every failure is fatal, the want
/// of the `;` too: it fails at what follows the literal.
pub open spec fn spec_let_statement(s: Seq<char>) -> Outcome<(Seq<char>, SpecLiteral)> {
    match spec_keyword(s, "let") {
        Outcome::Parsed { rest, value } => ended(spec_binding(rest, true)).cut(),
        Outcome::Recoverable(e) => Outcome::Recoverable(e),
        Outcome::Fatal(e) => Outcome::Fatal(e),
    }
}

/// Takes the name that a declaration binds from the front of `text`.
fn declared_name<'a>(text: &'a str, strict: bool) -> (r: Result<(&'a str, &'a str), Failure>)
    ensures
        outcome(r) == spec_declared_name(text@, strict),
        shorter(text, r),
{
    if strict {
        name_parser(text)
    } else {
        match alpha_or_underscore1(text) {
            Ok(found) => Ok(found),
            Err(Failure::Recoverable(cause)) => Err(
                Failure::Recoverable(
                    ParserError::caused(text, ErrorKind::Expected(Expectation::Name), cause),
                ),
            ),
            Err(Failure::Fatal(e)) => Err(Failure::Fatal(e)),
        }
    }
}

/// Takes what follows the keyword of a declaration from the front of `text`.
pub fn binding<'a>(text: &'a str, strict: bool) -> (r: Result<
    (&'a str, (&'a str, Literal)),
    Failure,
>)
    ensures
        outcome(r) == spec_binding(text@, strict),
        shorter(text, r),
{
    let (rest, _) = multispace1(text)?;
    let (rest, name) = declared_name(rest, strict)?;
    let (rest, _) = symbol(multispace0(rest), EQUAL_SIGN)?;
    let (rest, value) = literal(multispace0(rest))?;
    Ok((rest, (name, value)))
}

/// Takes the declaration of a state variable from the front of `text`, and
/// hands out its name and its initial value. The name starts with a letter
/// and goes on in letters, digits and underscores. A text that does not
/// start with `let` fails recoverably; after `let` every failure is fatal,
/// and a missing `;` fails at what follows the literal, as a `;` that was
/// expected.
pub fn let_statement<'a>(text: &'a str) -> (r: Result<(&'a str, (&'a str, Literal)), Failure>)
    ensures
        outcome(r) == spec_let_statement(text@),
        shorter(text, r),
{
    let (rest, _) = keyword(text, "let")?;
    cut(end(binding(rest, true)))
}

} // verus!
