//! The call of an item by name: `Name(argument, ...);`.
use crate::error::{
    leaf, outcome, shorter, ErrorKind, Expectation, Failure, Outcome, ParserError, SpecError,
};
use crate::literal::{Literal, SpecLiteral};
use crate::parser::{
    alpha_or_underscore1, argument_or_constant0, name_parser, spec_alpha_or_underscore1,
    spec_arguments, spec_name,
};
use crate::symbol::{spec_symbol, symbol, SEMICOLON};
use crate::table::{Constants, SpecConstants};
use vstd::prelude::*;
use vstd::string::*;

verus! {

/// The name of the item that is called: a run of letters and underscores
/// where `letters_only`, and else a name.
pub open spec fn spec_identifier(s: Seq<char>, letters_only: bool) -> Outcome<Seq<char>> {
    if letters_only {
        spec_alpha_or_underscore1(s)
    } else {
        spec_name(s)
    }
}

/// The call of an item: its name, its arguments in parentheses, and `;`.
pub open spec fn spec_item_call(
    constants: SpecConstants,
    s: Seq<char>,
    letters_only: bool,
) -> Outcome<(Seq<char>, Seq<SpecLiteral>)> {
    match spec_identifier(s, letters_only) {
        Outcome::Parsed { rest, value: name } => match spec_arguments(constants, rest) {
            Outcome::Parsed { rest, value: arguments } => match spec_symbol(rest, SEMICOLON) {
                Outcome::Parsed { rest, value } => Outcome::Parsed {
                    rest,
                    value: (name, arguments),
                },
                Outcome::Recoverable(e) => Outcome::Recoverable(e),
                Outcome::Fatal(e) => Outcome::Fatal(e),
            },
            Outcome::Recoverable(e) => Outcome::Recoverable(e),
            Outcome::Fatal(e) => Outcome::Fatal(e),
        },
        Outcome::Recoverable(e) => Outcome::Recoverable(e),
        Outcome::Fatal(e) => Outcome::Fatal(e),
    }
}

/// The failure of a call with `found` arguments of an item that takes
/// `expected`, at what follows the call.
pub open spec fn wrong_count(rest: Seq<char>, expected: nat, found: nat) -> SpecError {
    leaf(
        rest,
        ErrorKind::Expected(Expectation::ArgumentCount(expected as usize, found as usize)),
    )
}

/// Takes the call of an item from the front of `text`, and hands out the
/// item's name and the values of its arguments. A call without the `;` after
/// it fails at what follows the closing parenthesis.
pub fn item_call<'a>(constants: &Constants, text: &'a str, letters_only: bool) -> (r: Result<
    (&'a str, (&'a str, Vec<Literal>)),
    Failure,
>)
    ensures
        outcome(r) == spec_item_call(constants@, text@, letters_only),
        shorter(text, r),
{
    let (rest, name) = if letters_only {
        alpha_or_underscore1(text)?
    } else {
        name_parser(text)?
    };
    let (rest, arguments) = argument_or_constant0(constants, rest)?;
    let (rest, _) = symbol(rest, SEMICOLON)?;
    Ok((rest, (name, arguments)))
}

/// Fails, at `rest`, unless `found` is `expected`.
pub fn expect_count(rest: &str, expected: usize, found: usize) -> (r: Result<(), Failure>)
    ensures
        match r {
            Ok(_) => found == expected,
            Err(Failure::Recoverable(e)) => found != expected && e.deep_view() == wrong_count(
                rest@,
                expected as nat,
                found as nat,
            ),
            Err(Failure::Fatal(_)) => false,
        },
{
    if found == expected {
        Ok(())
    } else {
        Err(
            Failure::recoverable(
                rest,
                ErrorKind::Expected(Expectation::ArgumentCount(expected, found)),
            ),
        )
    }
}

/// The failure of a conversion as the recoverable failure of a parsing step.
pub fn recover<T>(r: Result<T, ParserError>) -> (out: Result<T, Failure>)
    ensures
        match r {
            Ok(v) => out == Ok::<T, Failure>(v),
            Err(e) => out == Err::<T, Failure>(Failure::Recoverable(e)),
        },
{
    match r {
        Ok(v) => Ok(v),
        Err(e) => Err(Failure::Recoverable(e)),
    }
}

} // verus!
