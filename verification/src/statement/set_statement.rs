//! `set <variable> to <value> on <event> from <address> [if match ...];`
//! writes a state slot on one event of one producer.
use crate::cast::{spec_to_u16, spec_to_value};
use crate::config::{
    both, equals, EventProcessor, Extractor, Filter, Matcher, SpecEventProcessor, SpecFilter,
    SpecMatcher,
};
use crate::error::{cut, no_alternative_at, outcome, shorter, Failure, Outcome, SpecError};
use crate::item::recover;
use crate::keyword::{keyword, spec_keyword};
use crate::literal::{spec_state_variable, state_variable, Literal, SpecLiteral};
use crate::parser::{multispace1, spec_multispace1};
use crate::statement::send_statement::{clause, finish_rule, spec_clause, spec_rule};
use crate::table::{Constants, SpecConstants, SpecVariables, StateVariables};
use crate::value::Value;
use vstd::prelude::*;
use vstd::string::*;

verus! {

/// What follows the keyword `set`: blank space, the state variable, `to`
/// and the value, `on` and the event, `from` and the address of the
/// producer.
pub open spec fn spec_set_fields(
    constants: SpecConstants,
    variables: SpecVariables,
    s: Seq<char>,
) -> Outcome<(u32, SpecLiteral, SpecLiteral, SpecLiteral)> {
    match spec_multispace1(s) {
        Outcome::Parsed { rest, value } => match spec_state_variable(variables, rest) {
            Outcome::Parsed { rest, value: slot } => match spec_clause(constants, rest, "to") {
                Outcome::Parsed { rest, value: target } => match spec_clause(
                    constants,
                    rest,
                    "on",
                ) {
                    Outcome::Parsed { rest, value: event } => match spec_clause(
                        constants,
                        rest,
                        "from",
                    ) {
                        Outcome::Parsed { rest, value: from } => Outcome::Parsed {
                            rest,
                            value: (slot, target, event, from),
                        },
                        Outcome::Recoverable(e) => Outcome::Recoverable(e),
                        Outcome::Fatal(e) => Outcome::Fatal(e),
                    },
                    Outcome::Recoverable(e) => Outcome::Recoverable(e),
                    Outcome::Fatal(e) => Outcome::Fatal(e),
                },
                Outcome::Recoverable(e) => Outcome::Recoverable(e),
                Outcome::Fatal(e) => Outcome::Fatal(e),
            },
            Outcome::Recoverable(e) => Outcome::Recoverable(e),
            Outcome::Fatal(e) => Outcome::Fatal(e),
        },
        Outcome::Recoverable(e) => Outcome::Recoverable(e),
        Outcome::Fatal(e) => Outcome::Fatal(e),
    }
}

/// The rule that writes `target` to the state slot `slot` on the event
/// `event` from the producer `from`. It has no action: the write is the
/// last part of its predicate.
pub open spec fn writing(slot: u32, target: Value, event: u16, from: u16) -> SpecEventProcessor {
    SpecEventProcessor {
        matcher: both(
            equals(Extractor::EventCodeExtractor, event),
            both(
                equals(Extractor::EventProducerAddressExtractor, from),
                SpecMatcher::Single {
                    extractor: Extractor::NoneExtractor,
                    filter: SpecFilter::SetStateToConstFilter(slot, target),
                },
            ),
        ),
        creators: Seq::empty(),
    }
}

/// The rule that the fields of a `set` describe. The value is any literal
/// but a string, the event and the address are `u16`s; they convert in the
/// order of the text, and the first that does not convert fails.
pub open spec fn set_rule(fields: (u32, SpecLiteral, SpecLiteral, SpecLiteral)) -> Result<
    SpecEventProcessor,
    SpecError,
> {
    match spec_to_value(fields.1) {
        Ok(target) => match spec_to_u16(fields.2) {
            Ok(event) => match spec_to_u16(fields.3) {
                Ok(from) => Ok(writing(fields.0, target, event, from)),
                Err(e) => Err(e),
            },
            Err(e) => Err(e),
        },
        Err(e) => Err(e),
    }
}

/// `set <variable> to <value> on <event> from <address>`. After `set` a
/// failure is fatal.
pub open spec fn spec_set_base(
    constants: SpecConstants,
    variables: SpecVariables,
    s: Seq<char>,
) -> Outcome<SpecEventProcessor> {
    match spec_keyword(s, "set") {
        Outcome::Parsed { rest, value } => (match spec_set_fields(constants, variables, rest) {
            Outcome::Parsed { rest, value } => match set_rule(value) {
                Ok(rule) => Outcome::Parsed { rest, value: rule },
                Err(e) => Outcome::Recoverable(e),
            },
            Outcome::Recoverable(e) => Outcome::Recoverable(e),
            Outcome::Fatal(e) => Outcome::Fatal(e),
        }).cut(),
        Outcome::Recoverable(e) => Outcome::Recoverable(e),
        Outcome::Fatal(e) => Outcome::Fatal(e),
    }
}

/// `set <variable> to <value> on <event> from <address>;`, or the same with
/// `if match ...` in place of the `;`. After `set` every failure is fatal.
/// The rule's predicate is the
/// conjunction of the test of the event's code with the conjunction of the
/// test of the producer's address and the write; a guard stands before it
/// in one more conjunction.
pub open spec fn spec_set_statement(
    constants: SpecConstants,
    variables: SpecVariables,
    tick: u16,
    s: Seq<char>,
) -> Outcome<SpecEventProcessor> {
    spec_rule(constants, tick, s, spec_set_base(constants, variables, s), true)
}

/// Takes what follows the keyword `set` from the front of `text`.
fn set_fields<'a>(constants: &Constants, variables: &StateVariables, text: &'a str) -> (r: Result<
    (&'a str, (u32, Literal, Literal, Literal)),
    Failure,
>)
    ensures
        outcome(r) == spec_set_fields(constants@, variables@, text@),
        shorter(text, r),
{
    let (rest, _) = multispace1(text)?;
    let (rest, slot) = state_variable(variables, rest)?;
    let (rest, target) = clause(constants, rest, "to")?;
    let (rest, event) = clause(constants, rest, "on")?;
    let (rest, from) = clause(constants, rest, "from")?;
    Ok((rest, (slot, target, event, from)))
}

/// The rule that the fields of a `set` describe.
fn to_set_rule(slot: u32, target: &Literal, event: &Literal, from: &Literal) -> (r: Result<
    EventProcessor,
    Failure,
>)
    ensures
        match set_rule((slot, target.deep_view(), event.deep_view(), from.deep_view())) {
            Ok(rule) => r matches Ok(made) && made.deep_view() == rule,
            Err(e) => r matches Err(Failure::Recoverable(f)) && f.deep_view() == e,
        },
{
    let target = recover(target.to_value())?;
    let event = recover(event.to_u16())?;
    let from = recover(from.to_u16())?;
    let write = Matcher::Single {
        extractor: Extractor::NoneExtractor,
        filter: Filter::SetStateToConstFilter(slot, target),
    };
    let matcher = Matcher::both(
        Matcher::equals(Extractor::EventCodeExtractor, event),
        Matcher::both(Matcher::equals(Extractor::EventProducerAddressExtractor, from), write),
    );
    let rule = EventProcessor { matcher, creators: Vec::new() };
    proof {
        assert(rule.creators.deep_view() =~= Seq::empty());
    }
    Ok(rule)
}

/// Takes `set <variable> to <value> on <event> from <address>` from the
/// front of `text`.
pub fn set_base<'a>(constants: &Constants, variables: &StateVariables, text: &'a str) -> (r: Result<
    (&'a str, EventProcessor),
    Failure,
>)
    ensures
        outcome(r) == spec_set_base(constants@, variables@, text@),
        shorter(text, r),
{
    let (rest, _) = keyword(text, "set")?;
    let (rest, (slot, target, event, from)) = cut(set_fields(constants, variables, rest))?;
    match to_set_rule(slot, &target, &event, &from) {
        Ok(rule) => Ok((rest, rule)),
        Err(f) => Err(f.cut()),
    }
}

/// Takes a `set` statement from the front of `text`:
/// `set <variable> to <value> on <event> from <address>;`, or the same with
/// a guard, `if match ...`, in place of the `;`. The variable is the name
/// of a state variable in `variables`; the value is any literal but a
/// string, the event and the address are `u16`s, each a literal or the name
/// of a constant. The rule has no action. Its predicate tests the event's
/// code, then the producer's address, and then writes the value to the
/// variable's slot; a guard is tested before all of them. A text that does
/// not start with `set` fails recoverably at `text`. After `set` every
/// failure is fatal: a statement without its `;` fails at what follows the
/// address and the blank space after it, as a `;` that was expected.
pub fn set_statement<'a>(
    constants: &Constants,
    variables: &StateVariables,
    tick_code: u16,
    text: &'a str,
) -> (r: Result<(&'a str, EventProcessor), Failure>)
    ensures
        outcome(r) == spec_set_statement(constants@, variables@, tick_code, text@),
        shorter(text, r),
{
    match set_base(constants, variables, text) {
        Ok((rest, rule)) => finish_rule(constants, tick_code, rest, rule, true),
        Err(Failure::Fatal(e)) => Err(Failure::Fatal(e)),
        Err(Failure::Recoverable(e1)) => match set_base(constants, variables, text) {
            Ok((rest, rule)) => finish_rule(constants, tick_code, rest, rule, true),
            Err(Failure::Fatal(e)) => Err(Failure::Fatal(e)),
            Err(Failure::Recoverable(e2)) => Err(no_alternative_at(text, e1.or(e2))),
        },
    }
}

} // verus!
