//! `send <event> from <address> to <address> [if match ...];` forwards the
//! packets of one event of one producer.
use crate::cast::spec_to_u16;
use crate::config::{
    both, equals, Creator, EventProcessor, Extractor, Matcher, Producer, SpecCreator,
    SpecEventProcessor, SpecMatcher,
};
use crate::error::{
    cut, either, no_alternative, no_alternative_at, outcome, shorter, Failure, Outcome, SpecError,
};
use crate::item::recover;
use crate::keyword::{keyword, spec_keyword};
use crate::literal::{literal_or_constant, spec_literal_or_constant, Literal, SpecLiteral};
use crate::parser::{multispace0, multispace1, spec_multispace0, spec_multispace1};
use crate::statement::match_statement::{guard, spec_guard};
use crate::symbol::{spec_symbol, symbol, SEMICOLON};
use crate::table::{Constants, SpecConstants};
use vstd::prelude::*;
use vstd::string::*;

verus! {

/// Blank space, the keyword `word`, blank space, and a constant or a
/// literal.
pub open spec fn spec_clause(
    constants: SpecConstants,
    s: Seq<char>,
    word: &'static str,
) -> Outcome<SpecLiteral> {
    match spec_multispace1(s) {
        Outcome::Parsed { rest, value } => match spec_keyword(rest, word) {
            Outcome::Parsed { rest, value } => match spec_multispace1(rest) {
                Outcome::Parsed { rest, value } => spec_literal_or_constant(constants, rest),
                Outcome::Recoverable(e) => Outcome::Recoverable(e),
                Outcome::Fatal(e) => Outcome::Fatal(e),
            },
            Outcome::Recoverable(e) => Outcome::Recoverable(e),
            Outcome::Fatal(e) => Outcome::Fatal(e),
        },
        Outcome::Recoverable(e) => Outcome::Recoverable(e),
        Outcome::Fatal(e) => Outcome::Fatal(e),
    }
}

/// What follows the keyword `send`: blank space, the event, `from` and the
/// address of the producer, `to` and the address of the receiver.
pub open spec fn spec_send_fields(constants: SpecConstants, s: Seq<char>) -> Outcome<
    (SpecLiteral, SpecLiteral, SpecLiteral),
> {
    match spec_multispace1(s) {
        Outcome::Parsed { rest, value } => match spec_literal_or_constant(constants, rest) {
            Outcome::Parsed { rest, value: event } => match spec_clause(constants, rest, "from") {
                Outcome::Parsed { rest, value: from } => match spec_clause(constants, rest, "to") {
                    Outcome::Parsed { rest, value: to } => Outcome::Parsed {
                        rest,
                        value: (event, from, to),
                    },
                    Outcome::Recoverable(e) => Outcome::Recoverable(e),
                    Outcome::Fatal(e) => Outcome::Fatal(e),
                },
                Outcome::Recoverable(e) => Outcome::Recoverable(e),
                Outcome::Fatal(e) => Outcome::Fatal(e),
            },
            Outcome::Recoverable(e) => Outcome::Recoverable(e),
            Outcome::Fatal(e) => Outcome::Fatal(e),
        },
        Outcome::Recoverable(e) => Outcome::Recoverable(e),
        Outcome::Fatal(e) => Outcome::Fatal(e),
    }
}

/// The rule that forwards to `to` the packets of the event `event` from the
/// producer `from`.
pub open spec fn forwarding(event: u16, from: u16, to: u16) -> SpecEventProcessor {
    SpecEventProcessor {
        matcher: both(
            equals(Extractor::EventCodeExtractor, event),
            equals(Extractor::EventProducerAddressExtractor, from),
        ),
        creators: seq![
            SpecCreator {
                extractor: Extractor::PacketExtractor,
                producer: Producer::PacketProducer(to),
                matcher: None,
            },
        ],
    }
}

/// The rule that the fields of a `send` describe. Each field is a `u16`;
/// they convert in the order of the text, and the first that does not
/// convert fails.
pub open spec fn send_rule(fields: (SpecLiteral, SpecLiteral, SpecLiteral)) -> Result<
    SpecEventProcessor,
    SpecError,
> {
    match spec_to_u16(fields.0) {
        Ok(event) => match spec_to_u16(fields.1) {
            Ok(from) => match spec_to_u16(fields.2) {
                Ok(to) => Ok(forwarding(event, from, to)),
                Err(e) => Err(e),
            },
            Err(e) => Err(e),
        },
        Err(e) => Err(e),
    }
}

/// `send <event> from <address> to <address>`. After `send` a failure is
/// fatal.
pub open spec fn spec_send_base(constants: SpecConstants, s: Seq<char>) -> Outcome<
    SpecEventProcessor,
> {
    match spec_keyword(s, "send") {
        Outcome::Parsed { rest, value } => (match spec_send_fields(constants, rest) {
            Outcome::Parsed { rest, value } => match send_rule(value) {
                Ok(rule) => Outcome::Parsed { rest, value: rule },
                Err(e) => Outcome::Recoverable(e),
            },
            Outcome::Recoverable(e) => Outcome::Recoverable(e),
            Outcome::Fatal(e) => Outcome::Fatal(e),
        }).cut(),
        Outcome::Recoverable(e) => Outcome::Recoverable(e),
        Outcome::Fatal(e) => Outcome::Fatal(e),
    }
}

/// The rule `rule` under the guard `guard`: the conjunction has the guard
/// first where `guard_first`, and else the rule's predicate.
pub open spec fn guarded(
    rule: SpecEventProcessor,
    guard: SpecMatcher,
    guard_first: bool,
) -> SpecEventProcessor {
    SpecEventProcessor {
        matcher: if guard_first {
            both(guard, rule.matcher)
        } else {
            both(rule.matcher, guard)
        },
        creators: rule.creators,
    }
}

/// The guard that stands at `s`: blank space, `if`, and the predicate.
/// Where no `if` stands after the blank space, this fails recoverably;
/// after `if` a failure is fatal.
pub open spec fn spec_spaced_guard(constants: SpecConstants, tick: u16, s: Seq<char>) -> Outcome<
    SpecMatcher,
> {
    match spec_multispace1(s) {
        Outcome::Parsed { rest, value } => spec_guard(constants, tick, rest),
        Outcome::Recoverable(e) => Outcome::Recoverable(e),
        Outcome::Fatal(e) => Outcome::Fatal(e),
    }
}

/// What ends the rule `rule` at `s`: the guard, where `if` stands there
/// after blank space, and else `;` after blank space, which may be missing.
/// The want of the `;` is fatal: it fails, at what follows the rule and the
/// blank space, as a `;` that was expected.
pub open spec fn spec_rule_end(
    constants: SpecConstants,
    tick: u16,
    s: Seq<char>,
    rule: SpecEventProcessor,
    guard_first: bool,
) -> Outcome<SpecEventProcessor> {
    match spec_spaced_guard(constants, tick, s) {
        Outcome::Parsed { rest, value: guard } => Outcome::Parsed {
            rest,
            value: guarded(rule, guard, guard_first),
        },
        Outcome::Fatal(e) => Outcome::Fatal(e),
        Outcome::Recoverable(_) => match spec_symbol(spec_multispace0(s), SEMICOLON) {
            Outcome::Parsed { rest, value } => Outcome::Parsed { rest, value: rule },
            Outcome::Recoverable(e) => Outcome::Fatal(e),
            Outcome::Fatal(e) => Outcome::Fatal(e),
        },
    }
}

/// A rule that is written in one statement at `s`, of which `base` is what
/// stands before the guard or the `;`. A text that does not start the rule
/// fails at `s`, with that failure as the cause, once for the form with a
/// guard and once for the form without.
pub open spec fn spec_rule(
    constants: SpecConstants,
    tick: u16,
    s: Seq<char>,
    base: Outcome<SpecEventProcessor>,
    guard_first: bool,
) -> Outcome<SpecEventProcessor> {
    match base {
        Outcome::Parsed { rest, value } => spec_rule_end(constants, tick, rest, value, guard_first),
        Outcome::Recoverable(e) => Outcome::Recoverable(no_alternative(s, either(e, e))),
        Outcome::Fatal(e) => Outcome::Fatal(e),
    }
}

/// `send <event> from <address> to <address>;`, or the same with
/// `if match ...` in place of the `;`. After `send` every failure is fatal.
/// The rule's predicate is the
/// conjunction of the test of the event's code and the test of the
/// producer's address, in this order; a guard joins it as the second part
/// of one more conjunction. Its one action forwards the packet to the
/// receiver.
pub open spec fn spec_send_statement(
    constants: SpecConstants,
    tick: u16,
    s: Seq<char>,
) -> Outcome<SpecEventProcessor> {
    spec_rule(constants, tick, s, spec_send_base(constants, s), false)
}

/// Takes blank space, the keyword `word`, blank space and a value from the
/// front of `text`.
pub fn clause<'a>(constants: &Constants, text: &'a str, word: &'static str) -> (r: Result<
    (&'a str, Literal),
    Failure,
>)
    ensures
        outcome(r) == spec_clause(constants@, text@, word),
        shorter(text, r),
{
    let (rest, _) = multispace1(text)?;
    let (rest, _) = keyword(rest, word)?;
    let (rest, _) = multispace1(rest)?;
    literal_or_constant(constants, rest)
}

/// Takes what follows the keyword `send` from the front of `text`.
fn send_fields<'a>(constants: &Constants, text: &'a str) -> (r: Result<
    (&'a str, (Literal, Literal, Literal)),
    Failure,
>)
    ensures
        outcome(r) == spec_send_fields(constants@, text@),
        shorter(text, r),
{
    let (rest, _) = multispace1(text)?;
    let (rest, event) = literal_or_constant(constants, rest)?;
    let (rest, from) = clause(constants, rest, "from")?;
    let (rest, to) = clause(constants, rest, "to")?;
    Ok((rest, (event, from, to)))
}

/// The rule that the fields of a `send` describe.
fn to_send_rule(event: &Literal, from: &Literal, to: &Literal) -> (r: Result<
    EventProcessor,
    Failure,
>)
    ensures
        match send_rule((event.deep_view(), from.deep_view(), to.deep_view())) {
            Ok(rule) => r matches Ok(made) && made.deep_view() == rule,
            Err(e) => r matches Err(Failure::Recoverable(f)) && f.deep_view() == e,
        },
{
    let event = recover(event.to_u16())?;
    let from = recover(from.to_u16())?;
    let to = recover(to.to_u16())?;
    let matcher = Matcher::both(
        Matcher::equals(Extractor::EventCodeExtractor, event),
        Matcher::equals(Extractor::EventProducerAddressExtractor, from),
    );
    let mut creators: Vec<Creator> = Vec::new();
    let creator = Creator {
        extractor: Extractor::PacketExtractor,
        producer: Producer::PacketProducer(to),
        matcher: None,
    };
    creators.push(creator);
    proof {
        assert(creators.deep_view() =~= seq![creator.deep_view()]);
    }
    Ok(EventProcessor { matcher, creators })
}

/// Takes `send <event> from <address> to <address>` from the front of
/// `text`.
pub fn send_base<'a>(constants: &Constants, text: &'a str) -> (r: Result<
    (&'a str, EventProcessor),
    Failure,
>)
    ensures
        outcome(r) == spec_send_base(constants@, text@),
        shorter(text, r),
{
    let (rest, _) = keyword(text, "send")?;
    let (rest, (event, from, to)) = cut(send_fields(constants, rest))?;
    match to_send_rule(&event, &from, &to) {
        Ok(rule) => Ok((rest, rule)),
        Err(f) => Err(f.cut()),
    }
}

/// Takes what ends a rule, the guard or the `;`, from the front of `rest`,
/// where `rule` is what stands before `rest`.
pub(crate) fn finish_rule<'a>(
    constants: &Constants,
    tick_code: u16,
    rest: &'a str,
    rule: EventProcessor,
    guard_first: bool,
) -> (r: Result<(&'a str, EventProcessor), Failure>)
    ensures
        outcome(r) == spec_rule_end(
            constants@,
            tick_code,
            rest@,
            rule.deep_view(),
            guard_first,
        ),
        shorter(rest, r),
{
    let found = match multispace1(rest) {
        Ok((after, _)) => guard(constants, tick_code, after),
        Err(f) => Err(f),
    };
    match found {
        Ok((after, extra)) => {
            let matcher = if guard_first {
                Matcher::both(extra, rule.matcher)
            } else {
                Matcher::both(rule.matcher, extra)
            };
            Ok((after, EventProcessor { matcher, creators: rule.creators }))
        },
        Err(Failure::Fatal(e)) => Err(Failure::Fatal(e)),
        Err(Failure::Recoverable(_)) => match symbol(multispace0(rest), SEMICOLON) {
            Ok((after, _)) => Ok((after, rule)),
            Err(f) => Err(f.cut()),
        },
    }
}

/// Takes a `send` statement from the front of `text`:
/// `send <event> from <address> to <address>;`, or the same with a guard,
/// `if match ...`, in place of the `;`. The three values are `u16`s, each a
/// literal or the name of a constant. The rule's predicate is the
/// conjunction of the test of the event's code and the test of the
/// producer's address, and with a guard the conjunction of that and the
/// guard; its one action forwards the packet to the receiver. A text that
/// does not start with `send` fails recoverably at `text`. After `send`
/// every failure is fatal: a statement without its `;` fails at what
/// follows the second address and the blank space after it, as a `;` that
/// was expected.
pub fn send_statement<'a>(constants: &Constants, tick_code: u16, text: &'a str) -> (r: Result<
    (&'a str, EventProcessor),
    Failure,
>)
    ensures
        outcome(r) == spec_send_statement(constants@, tick_code, text@),
        shorter(text, r),
{
    match send_base(constants, text) {
        Ok((rest, rule)) => finish_rule(constants, tick_code, rest, rule, false),
        Err(Failure::Fatal(e)) => Err(Failure::Fatal(e)),
        Err(Failure::Recoverable(e1)) => match send_base(constants, text) {
            Ok((rest, rule)) => finish_rule(constants, tick_code, rest, rule, false),
            Err(Failure::Fatal(e)) => Err(Failure::Fatal(e)),
            Err(Failure::Recoverable(e2)) => Err(no_alternative_at(text, e1.or(e2))),
        },
    }
}

} // verus!
