//! `fire { [extractor;] producer; } [if match ...]`: one action of a rule.
use crate::config::{Creator, Extractor, Producer, SpecCreator};
use crate::error::{cut, no_alternative_at, or_else, outcome, shorter, Failure, Outcome};
use crate::keyword::{keyword, spec_keyword};
use crate::parser::{multispace0, multispace1, spec_multispace0, spec_multispace1};
use crate::producer::{producer, spec_producer};
use crate::statement::match_statement::{
    close, closed, guard, optional_extractor, spec_guard, spec_optional_extractor,
};
use crate::symbol::{spec_symbol, symbol, OPEN_BRACE};
use crate::table::{Constants, SpecConstants};
use vstd::prelude::*;
use vstd::string::*;

verus! {

/// The call of a producer between blank space.
pub open spec fn spec_spaced_producer(
    constants: SpecConstants,
    s: Seq<char>,
) -> Outcome<Producer> {
    match spec_producer(constants, spec_multispace0(s)) {
        Outcome::Parsed { rest, value } => Outcome::Parsed { rest: spec_multispace0(rest), value },
        other => other,
    }
}

/// What follows the keyword `fire`: blank space, `{`, an extractor, which
/// may be missing, and a producer.
pub open spec fn spec_fire_content(constants: SpecConstants, s: Seq<char>) -> Outcome<
    (Extractor, Producer),
> {
    match spec_multispace1(s) {
        Outcome::Parsed { rest, value } => match spec_symbol(rest, OPEN_BRACE) {
            Outcome::Parsed { rest, value } => match spec_optional_extractor(constants, rest) {
                Outcome::Parsed { rest, value: extractor } => match spec_spaced_producer(
                    constants,
                    rest,
                ) {
                    Outcome::Parsed { rest, value: producer } => Outcome::Parsed {
                        rest,
                        value: (extractor, producer),
                    },
                    Outcome::Recoverable(e) => Outcome::Recoverable(e),
                    Outcome::Fatal(e) => Outcome::Fatal(e),
                },
                Outcome::Recoverable(e) => Outcome::Recoverable(e),
                Outcome::Fatal(e) => Outcome::Fatal(e),
            },
            Outcome::Recoverable(e) => Outcome::Recoverable(e),
            Outcome::Fatal(e) => Outcome::Fatal(e),
        },
        Outcome::Recoverable(e) => Outcome::Recoverable(e),
        Outcome::Fatal(e) => Outcome::Fatal(e),
    }
}

/// `fire { [extractor;] producer; }`. After `fire` a failure before the
/// closing brace is fatal.
pub open spec fn spec_fire_base(constants: SpecConstants, s: Seq<char>) -> Outcome<
    (Extractor, Producer),
> {
    closed(
        match spec_keyword(s, "fire") {
            Outcome::Parsed { rest, value } => spec_fire_content(constants, rest).cut(),
            Outcome::Recoverable(e) => Outcome::Recoverable(e),
            Outcome::Fatal(e) => Outcome::Fatal(e),
        },
    )
}

/// An action with a guard: the action, blank space, which may be missing,
/// and the guard.
pub open spec fn spec_guarded_fire(
    constants: SpecConstants,
    tick: u16,
    s: Seq<char>,
) -> Outcome<SpecCreator> {
    match spec_fire_base(constants, s) {
        Outcome::Parsed { rest, value } => match spec_guard(
            constants,
            tick,
            spec_multispace0(rest),
        ) {
            Outcome::Parsed { rest, value: matcher } => Outcome::Parsed {
                rest,
                value: SpecCreator {
                    extractor: value.0,
                    producer: value.1,
                    matcher: Some(matcher),
                },
            },
            Outcome::Recoverable(e) => Outcome::Recoverable(e),
            Outcome::Fatal(e) => Outcome::Fatal(e),
        },
        Outcome::Recoverable(e) => Outcome::Recoverable(e),
        Outcome::Fatal(e) => Outcome::Fatal(e),
    }
}

/// An action without a guard.
pub open spec fn spec_plain_fire(constants: SpecConstants, s: Seq<char>) -> Outcome<SpecCreator> {
    match spec_fire_base(constants, s) {
        Outcome::Parsed { rest, value } => Outcome::Parsed {
            rest,
            value: SpecCreator { extractor: value.0, producer: value.1, matcher: None },
        },
        Outcome::Recoverable(e) => Outcome::Recoverable(e),
        Outcome::Fatal(e) => Outcome::Fatal(e),
    }
}

/// An action, with a guard or without. The form with a guard is tried
/// first.
pub open spec fn spec_fire_statement(
    constants: SpecConstants,
    tick: u16,
    s: Seq<char>,
) -> Outcome<SpecCreator> {
    or_else(s, spec_guarded_fire(constants, tick, s), spec_plain_fire(constants, s))
}

/// Takes the call of a producer, with the blank space before it and after
/// it, from the front of `text`.
pub fn spaced_producer<'a>(constants: &Constants, text: &'a str) -> (r: Result<
    (&'a str, Producer),
    Failure,
>)
    ensures
        outcome(r) == spec_spaced_producer(constants@, text@),
        shorter(text, r),
{
    let (rest, found) = producer(constants, multispace0(text))?;
    Ok((multispace0(rest), found))
}

/// Takes what follows the keyword `fire` from the front of `text`.
fn fire_content<'a>(constants: &Constants, text: &'a str) -> (r: Result<
    (&'a str, (Extractor, Producer)),
    Failure,
>)
    ensures
        outcome(r) == spec_fire_content(constants@, text@),
        shorter(text, r),
{
    let (rest, _) = multispace1(text)?;
    let (rest, _) = symbol(rest, OPEN_BRACE)?;
    let (rest, extractor) = optional_extractor(constants, rest)?;
    let (rest, producer) = spaced_producer(constants, rest)?;
    Ok((rest, (extractor, producer)))
}

/// Takes `fire { [extractor;] producer; }` from the front of `text`.
pub fn fire_base<'a>(constants: &Constants, text: &'a str) -> (r: Result<
    (&'a str, (Extractor, Producer)),
    Failure,
>)
    ensures
        outcome(r) == spec_fire_base(constants@, text@),
        shorter(text, r),
{
    let (rest, _) = keyword(text, "fire")?;
    close(cut(fire_content(constants, rest)))
}

/// Takes one action of a rule from the front of `text`:
/// `fire { [extractor;] producer; }`, and after it, where the action is
/// guarded, `if match ...`. Without the call of an extractor, the action
/// has the extractor that takes nothing. A text that is no action fails at
/// `text`, with the failure of the action as the cause, once for each of
/// the two forms. After `fire`, a failure before the closing brace is
/// fatal, and so is a failure after `if`.
pub fn fire_statement<'a>(constants: &Constants, tick_code: u16, text: &'a str) -> (r: Result<
    (&'a str, Creator),
    Failure,
>)
    ensures
        outcome(r) == spec_fire_statement(constants@, tick_code, text@),
        shorter(text, r),
{
    match fire_base(constants, text) {
        Ok((rest, (extractor, producer))) => match guard(
            constants,
            tick_code,
            multispace0(rest),
        ) {
            Ok((rest, matcher)) => Ok(
                (rest, Creator { extractor, producer, matcher: Some(matcher) }),
            ),
            Err(Failure::Fatal(e)) => Err(Failure::Fatal(e)),
            Err(Failure::Recoverable(_)) => Ok(
                (rest, Creator { extractor, producer, matcher: None }),
            ),
        },
        Err(Failure::Fatal(e)) => Err(Failure::Fatal(e)),
        Err(Failure::Recoverable(e1)) => match fire_base(constants, text) {
            Ok((rest, (extractor, producer))) => Ok(
                (rest, Creator { extractor, producer, matcher: None }),
            ),
            Err(Failure::Fatal(e)) => Err(Failure::Fatal(e)),
            Err(Failure::Recoverable(e2)) => Err(no_alternative_at(text, e1.or(e2))),
        },
    }
}

} // verus!
