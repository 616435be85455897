//! `match ...`: a predicate on events, in one of its short forms or as a
//! block, which may nest under `not`, `or` and `and`.
use crate::cast::spec_to_u16;
use crate::config::{both, equals, Extractor, Filter, Matcher, SpecFilter, SpecMatcher};
use crate::error::{
    cut, leaf, no_alternative_at, or_else4, outcome, shorter, ErrorKind, Expectation, Failure,
    Outcome,
};
use crate::extractor::{extractor, spec_extractor};
use crate::filter::{filter, spec_filter};
use crate::item::recover;
use crate::keyword::{keyword, spec_keyword};
use crate::literal::{literal_or_constant, spec_literal_or_constant};
use crate::parser::{multispace0, multispace1, spec_multispace0, spec_multispace1};
use crate::symbol::{spec_symbol, symbol, CLOSE_BRACE, COMMA, OPEN_BRACE, SEMICOLON};
use crate::table::{Constants, SpecConstants};
use vstd::prelude::*;
use vstd::string::*;

verus! {

/// The extractor of a block: the call of an extractor between blank space,
/// or, where no such call stands there, the extractor that takes nothing,
/// with no text consumed.
pub open spec fn spec_optional_extractor(
    constants: SpecConstants,
    s: Seq<char>,
) -> Outcome<Extractor> {
    match spec_extractor(constants, spec_multispace0(s)) {
        Outcome::Parsed { rest, value } => Outcome::Parsed { rest: spec_multispace0(rest), value },
        Outcome::Recoverable(_) => Outcome::Parsed { rest: s, value: Extractor::NoneExtractor },
        Outcome::Fatal(e) => Outcome::Fatal(e),
    }
}

/// The call of a filter between blank space.
pub open spec fn spec_spaced_filter(constants: SpecConstants, s: Seq<char>) -> Outcome<SpecFilter> {
    match spec_filter(constants, spec_multispace0(s)) {
        Outcome::Parsed { rest, value } => Outcome::Parsed { rest: spec_multispace0(rest), value },
        other => other,
    }
}

/// An extractor, which may be missing, and a filter.
pub open spec fn spec_extractor_and_filter(
    constants: SpecConstants,
    s: Seq<char>,
) -> Outcome<SpecMatcher> {
    match spec_optional_extractor(constants, s) {
        Outcome::Parsed { rest, value: extractor } => match spec_spaced_filter(constants, rest) {
            Outcome::Parsed { rest, value: filter } => Outcome::Parsed {
                rest,
                value: SpecMatcher::Single { extractor, filter },
            },
            Outcome::Recoverable(e) => Outcome::Recoverable(e),
            Outcome::Fatal(e) => Outcome::Fatal(e),
        },
        Outcome::Recoverable(e) => Outcome::Recoverable(e),
        Outcome::Fatal(e) => Outcome::Fatal(e),
    }
}

/// `{`, an extractor, which may be missing, and a filter. After the brace a
/// failure is fatal.
pub open spec fn spec_single_body(constants: SpecConstants, s: Seq<char>) -> Outcome<SpecMatcher> {
    match spec_symbol(s, OPEN_BRACE) {
        Outcome::Parsed { rest, value } => spec_extractor_and_filter(constants, rest).cut(),
        Outcome::Recoverable(e) => Outcome::Recoverable(e),
        Outcome::Fatal(e) => Outcome::Fatal(e),
    }
}

/// The same outcome after blank space, which may be missing, and `}`.
pub open spec fn closed<T>(o: Outcome<T>) -> Outcome<T> {
    match o {
        Outcome::Parsed { rest, value } => match spec_symbol(spec_multispace0(rest), CLOSE_BRACE) {
            Outcome::Parsed { rest, value: _ } => Outcome::Parsed { rest, value },
            Outcome::Recoverable(e) => Outcome::Recoverable(e),
            Outcome::Fatal(e) => Outcome::Fatal(e),
        },
        other => other,
    }
}

/// The negation of `o`.
pub open spec fn negated(o: Outcome<SpecMatcher>) -> Outcome<SpecMatcher> {
    match o {
        Outcome::Parsed { rest, value } => Outcome::Parsed {
            rest,
            value: SpecMatcher::Not(Box::new(value)),
        },
        other => other,
    }
}

/// The slot of `not`: a block after blank space, or, where no block stands
/// there, an extractor, which may be missing, and a filter. `limit` is the
/// length of the text that the keyword started.
pub open spec fn spec_not_slot(constants: SpecConstants, s: Seq<char>, limit: nat) -> Outcome<
    SpecMatcher,
>
    decreases limit, 0nat,
{
    let inner = spec_multispace0(s);
    if inner.len() >= limit {
        no_progress(s)
    } else {
        match spec_block(constants, inner) {
            Outcome::Recoverable(_) => spec_extractor_and_filter(constants, s),
            other => other,
        }
    }
}

/// `not`, `{` and the slot: the negation of the predicate in the slot.
/// After the keyword a failure is fatal.
pub open spec fn spec_not_body(constants: SpecConstants, s: Seq<char>) -> Outcome<SpecMatcher>
    decreases s.len(), 1nat,
{
    match spec_keyword(s, "not") {
        Outcome::Parsed { rest, value } => negated(
            match spec_symbol(spec_multispace0(rest), OPEN_BRACE) {
                Outcome::Parsed { rest, value } => spec_not_slot(constants, rest, s.len()),
                Outcome::Recoverable(e) => Outcome::Recoverable(e),
                Outcome::Fatal(e) => Outcome::Fatal(e),
            },
        ).cut(),
        Outcome::Recoverable(e) => Outcome::Recoverable(e),
        Outcome::Fatal(e) => Outcome::Fatal(e),
    }
}

/// The disjunction of two predicates where `any`, and else their
/// conjunction.
pub open spec fn combined(any: bool, left: SpecMatcher, right: SpecMatcher) -> SpecMatcher {
    if any {
        SpecMatcher::Or(Box::new(left), Box::new(right))
    } else {
        SpecMatcher::And(Box::new(left), Box::new(right))
    }
}

/// The failure that stands for a slot which is not shorter than the text
/// that its keyword started. No slot is, so that this failure never arises:
/// it is what lets the definition of a block refer to itself.
pub open spec fn no_progress(s: Seq<char>) -> Outcome<SpecMatcher> {
    Outcome::Fatal(leaf(s, ErrorKind::Expected(Expectation::Something)))
}

/// `{`, a block, `,`, a block, with blank space before each of them: the
/// two slots of `or` and `and`, of which `limit` is the length of the text
/// that the keyword started.
pub open spec fn spec_pair_body(
    constants: SpecConstants,
    s: Seq<char>,
    any: bool,
    limit: nat,
) -> Outcome<SpecMatcher>
    decreases limit, 0nat,
{
    match spec_symbol(s, OPEN_BRACE) {
        Outcome::Parsed { rest, value } => {
            let first = spec_multispace0(rest);
            if first.len() >= limit {
                no_progress(s)
            } else {
                match spec_block(constants, first) {
                    Outcome::Parsed { rest, value: left } => match spec_symbol(
                        spec_multispace0(rest),
                        COMMA,
                    ) {
                        Outcome::Parsed { rest, value } => {
                            let second = spec_multispace0(rest);
                            if second.len() >= limit {
                                no_progress(s)
                            } else {
                                match spec_block(constants, second) {
                                    Outcome::Parsed { rest, value: right } => Outcome::Parsed {
                                        rest,
                                        value: combined(any, left, right),
                                    },
                                    other => other,
                                }
                            }
                        },
                        Outcome::Recoverable(e) => Outcome::Recoverable(e),
                        Outcome::Fatal(e) => Outcome::Fatal(e),
                    },
                    other => other,
                }
            }
        },
        Outcome::Recoverable(e) => Outcome::Recoverable(e),
        Outcome::Fatal(e) => Outcome::Fatal(e),
    }
}

/// `or` or `and`, and the two slots. After the keyword a failure is fatal.
pub open spec fn spec_pair(constants: SpecConstants, s: Seq<char>, any: bool) -> Outcome<
    SpecMatcher,
>
    decreases s.len(), 1nat,
{
    match spec_keyword(
        s,
        if any {
            "or"
        } else {
            "and"
        },
    ) {
        Outcome::Parsed { rest, value } => spec_pair_body(
            constants,
            spec_multispace0(rest),
            any,
            s.len(),
        ).cut(),
        Outcome::Recoverable(e) => Outcome::Recoverable(e),
        Outcome::Fatal(e) => Outcome::Fatal(e),
    }
}

/// A block: `not { M }`, `or { M, M }`, `and { M, M }` or `{ ... }`, where
/// `...` is an extractor, which may be missing, and a filter, and each `M`
/// is a block; in `not`, `M` may also be `...` without braces of its own.
/// The forms are tried in this order.
pub open spec fn spec_block(constants: SpecConstants, s: Seq<char>) -> Outcome<SpecMatcher>
    decreases s.len(), 2nat,
{
    or_else4(
        s,
        closed(spec_not_body(constants, s)),
        closed(spec_pair(constants, s, true)),
        closed(spec_pair(constants, s, false)),
        closed(spec_single_body(constants, s)),
    )
}

/// `match` and blank space.
pub open spec fn spec_match_prefix(s: Seq<char>) -> Outcome<Seq<char>> {
    match spec_keyword(s, "match") {
        Outcome::Parsed { rest, value } => spec_multispace1(rest),
        Outcome::Recoverable(e) => Outcome::Recoverable(e),
        Outcome::Fatal(e) => Outcome::Fatal(e),
    }
}

/// A `u16`, as a constant or a literal, that what `extractor` takes out of
/// an event is compared with.
pub open spec fn spec_compared(
    constants: SpecConstants,
    s: Seq<char>,
    extractor: Extractor,
) -> Outcome<SpecMatcher> {
    match spec_literal_or_constant(constants, s) {
        Outcome::Parsed { rest, value } => match spec_to_u16(value) {
            Ok(code) => Outcome::Parsed { rest, value: equals(extractor, code) },
            Err(e) => Outcome::Recoverable(e),
        },
        Outcome::Recoverable(e) => Outcome::Recoverable(e),
        Outcome::Fatal(e) => Outcome::Fatal(e),
    }
}

/// The same outcome after `;`.
pub open spec fn ended<T>(o: Outcome<T>) -> Outcome<T> {
    match o {
        Outcome::Parsed { rest, value } => match spec_symbol(rest, SEMICOLON) {
            Outcome::Parsed { rest, value: _ } => Outcome::Parsed { rest, value },
            Outcome::Recoverable(e) => Outcome::Recoverable(e),
            Outcome::Fatal(e) => Outcome::Fatal(e),
        },
        other => other,
    }
}

/// The same outcome after `;`, whose want is fatal.
pub open spec fn terminated<T>(o: Outcome<T>) -> Outcome<T> {
    match o {
        Outcome::Parsed { rest, value } => match spec_symbol(rest, SEMICOLON) {
            Outcome::Parsed { rest, value: _ } => Outcome::Parsed { rest, value },
            Outcome::Recoverable(e) => Outcome::Fatal(e),
            Outcome::Fatal(e) => Outcome::Fatal(e),
        },
        other => other,
    }
}

/// `match <word> <u16>;`: the test that what `extractor` takes out of an
/// event equals the number. After `word` a failure is fatal, the want of
/// the `;` too: it fails at what follows the number.
pub open spec fn spec_equality(
    constants: SpecConstants,
    s: Seq<char>,
    word: &'static str,
    extractor: Extractor,
) -> Outcome<SpecMatcher> {
    match spec_match_prefix(s) {
        Outcome::Parsed { rest, value } => match spec_keyword(rest, word) {
            Outcome::Parsed { rest, value } => ended(
                match spec_multispace1(rest) {
                    Outcome::Parsed { rest, value } => spec_compared(constants, rest, extractor),
                    Outcome::Recoverable(e) => Outcome::Recoverable(e),
                    Outcome::Fatal(e) => Outcome::Fatal(e),
                },
            ).cut(),
            Outcome::Recoverable(e) => Outcome::Recoverable(e),
            Outcome::Fatal(e) => Outcome::Fatal(e),
        },
        Outcome::Recoverable(e) => Outcome::Recoverable(e),
        Outcome::Fatal(e) => Outcome::Fatal(e),
    }
}

/// `match tick;`: the test that the code of an event is `tick`. After
/// `tick` the want of the `;` is fatal: it fails at what follows the
/// keyword.
pub open spec fn spec_tick(s: Seq<char>, tick: u16) -> Outcome<SpecMatcher> {
    match spec_match_prefix(s) {
        Outcome::Parsed { rest, value } => match spec_keyword(rest, "tick") {
            Outcome::Parsed { rest, value } => ended(
                Outcome::Parsed { rest, value: equals(Extractor::EventCodeExtractor, tick) },
            ).cut(),
            Outcome::Recoverable(e) => Outcome::Recoverable(e),
            Outcome::Fatal(e) => Outcome::Fatal(e),
        },
        Outcome::Recoverable(e) => Outcome::Recoverable(e),
        Outcome::Fatal(e) => Outcome::Fatal(e),
    }
}

/// `match` and a block.
pub open spec fn spec_block_match(constants: SpecConstants, s: Seq<char>) -> Outcome<SpecMatcher> {
    match spec_match_prefix(s) {
        Outcome::Parsed { rest, value } => spec_block(constants, rest),
        Outcome::Recoverable(e) => Outcome::Recoverable(e),
        Outcome::Fatal(e) => Outcome::Fatal(e),
    }
}

/// A predicate: `match event <u16>;` tests the code of an event and
/// `match producer <u16>;` the address of its producer; `match tick;` tests
/// the code of an event against `tick`; `match` and a block is the
/// predicate of the block. The forms are tried in this order.
pub open spec fn spec_match_statement(
    constants: SpecConstants,
    tick: u16,
    s: Seq<char>,
) -> Outcome<SpecMatcher> {
    or_else4(
        s,
        spec_equality(constants, s, "event", Extractor::EventCodeExtractor),
        spec_equality(constants, s, "producer", Extractor::EventProducerAddressExtractor),
        spec_tick(s, tick),
        spec_block_match(constants, s),
    )
}

/// Takes the extractor of a block from the front of `text`: the call of an
/// extractor, or nothing, which stands for the extractor that takes nothing.
pub fn optional_extractor<'a>(constants: &Constants, text: &'a str) -> (r: Result<
    (&'a str, Extractor),
    Failure,
>)
    ensures
        outcome(r) == spec_optional_extractor(constants@, text@),
        r matches Ok((rest, _)) ==> rest@.len() <= text@.len(),
{
    match extractor(constants, multispace0(text)) {
        Ok((rest, found)) => Ok((multispace0(rest), found)),
        Err(Failure::Recoverable(_)) => Ok((text, Extractor::NoneExtractor)),
        Err(Failure::Fatal(e)) => Err(Failure::Fatal(e)),
    }
}

/// Takes the call of a filter, with the blank space before it and after it,
/// from the front of `text`.
pub fn spaced_filter<'a>(constants: &Constants, text: &'a str) -> (r: Result<
    (&'a str, Filter),
    Failure,
>)
    ensures
        outcome(r) == spec_spaced_filter(constants@, text@),
        shorter(text, r),
{
    let (rest, found) = filter(constants, multispace0(text))?;
    Ok((multispace0(rest), found))
}

/// Takes an extractor, which may be missing, and a filter from the front of
/// `text`.
fn extractor_and_filter<'a>(constants: &Constants, text: &'a str) -> (r: Result<
    (&'a str, Matcher),
    Failure,
>)
    ensures
        outcome(r) == spec_extractor_and_filter(constants@, text@),
        shorter(text, r),
{
    let (rest, extractor) = optional_extractor(constants, text)?;
    let (rest, filter) = spaced_filter(constants, rest)?;
    Ok((rest, Matcher::Single { extractor, filter }))
}

/// Takes `{`, an extractor, which may be missing, and a filter from the
/// front of `text`.
fn single_body<'a>(constants: &Constants, text: &'a str) -> (r: Result<(&'a str, Matcher), Failure>)
    ensures
        outcome(r) == spec_single_body(constants@, text@),
        shorter(text, r),
{
    let (rest, _) = symbol(text, OPEN_BRACE)?;
    cut(extractor_and_filter(constants, rest))
}

/// Takes the blank space and the `}` that end what `r` took.
pub fn close<'a, T: DeepView>(r: Result<(&'a str, T), Failure>) -> (out: Result<
    (&'a str, T),
    Failure,
>)
    ensures
        outcome(out) == closed(outcome(r)),
        match (r, out) {
            (Ok((before, _)), Ok((rest, _))) => rest@.len() < before@.len(),
            _ => true,
        },
{
    let (rest, value) = r?;
    let (rest, _) = symbol(multispace0(rest), CLOSE_BRACE)?;
    Ok((rest, value))
}

/// Takes the slot of `not` from the front of `text`.
fn not_slot<'a>(constants: &Constants, text: &'a str, Ghost(limit): Ghost<nat>) -> (r: Result<
    (&'a str, Matcher),
    Failure,
>)
    requires
        text@.len() < limit,
    ensures
        outcome(r) == spec_not_slot(constants@, text@, limit),
        shorter(text, r),
    decreases limit, 0nat,
{
    match block(constants, multispace0(text)) {
        Err(Failure::Recoverable(_)) => extractor_and_filter(constants, text),
        other => other,
    }
}

/// Takes `not`, `{` and the slot from the front of `text`.
fn not_body<'a>(constants: &Constants, text: &'a str) -> (r: Result<(&'a str, Matcher), Failure>)
    ensures
        outcome(r) == spec_not_body(constants@, text@),
        shorter(text, r),
    decreases text@.len(), 1nat,
{
    let (rest, _) = keyword(text, "not")?;
    let rest = match symbol(multispace0(rest), OPEN_BRACE) {
        Ok((rest, _)) => rest,
        Err(f) => return Err(f.cut()),
    };
    match not_slot(constants, rest, Ghost(text@.len())) {
        Ok((rest, inner)) => Ok((rest, Matcher::Not(Box::new(inner)))),
        Err(f) => Err(f.cut()),
    }
}

/// Takes the two slots of `or` and `and` from the front of `text`.
fn pair_body<'a>(constants: &Constants, text: &'a str, any: bool, Ghost(limit): Ghost<nat>) -> (r:
    Result<(&'a str, Matcher), Failure>)
    requires
        text@.len() < limit,
    ensures
        outcome(r) == spec_pair_body(constants@, text@, any, limit),
        shorter(text, r),
    decreases limit, 0nat,
{
    let (rest, _) = symbol(text, OPEN_BRACE)?;
    let (rest, left) = block(constants, multispace0(rest))?;
    let (rest, _) = symbol(multispace0(rest), COMMA)?;
    let (rest, right) = block(constants, multispace0(rest))?;
    let both = if any {
        Matcher::Or(Box::new(left), Box::new(right))
    } else {
        Matcher::And(Box::new(left), Box::new(right))
    };
    Ok((rest, both))
}

/// Takes `or` or `and`, and the two slots, from the front of `text`.
fn pair<'a>(constants: &Constants, text: &'a str, any: bool) -> (r: Result<
    (&'a str, Matcher),
    Failure,
>)
    ensures
        outcome(r) == spec_pair(constants@, text@, any),
        shorter(text, r),
    decreases text@.len(), 1nat,
{
    let (rest, _) = keyword(
        text,
        if any {
            "or"
        } else {
            "and"
        },
    )?;
    cut(pair_body(constants, multispace0(rest), any, Ghost(text@.len())))
}

/// Takes a block from the front of `text`: `not { M }`, `or { M, M }`,
/// `and { M, M }` or `{ ... }`, where `...` is the call of an extractor,
/// which may be missing, and the call of a filter, and each `M` is a block;
/// in `not`, `M` may also be `...` without braces of its own. Blocks nest
/// to any depth. A text that is none of the forms fails at
/// `text`, with the failures of the four as the cause; after `not`, `or`,
/// `and` and an opening brace a failure before the closing brace is fatal.
pub fn block<'a>(constants: &Constants, text: &'a str) -> (r: Result<(&'a str, Matcher), Failure>)
    ensures
        outcome(r) == spec_block(constants@, text@),
        shorter(text, r),
    decreases text@.len(), 2nat,
{
    let e1 = match close(not_body(constants, text)) {
        Ok(found) => return Ok(found),
        Err(Failure::Fatal(e)) => return Err(Failure::Fatal(e)),
        Err(Failure::Recoverable(e)) => e,
    };
    let e2 = match close(pair(constants, text, true)) {
        Ok(found) => return Ok(found),
        Err(Failure::Fatal(e)) => return Err(Failure::Fatal(e)),
        Err(Failure::Recoverable(e)) => e,
    };
    let e3 = match close(pair(constants, text, false)) {
        Ok(found) => return Ok(found),
        Err(Failure::Fatal(e)) => return Err(Failure::Fatal(e)),
        Err(Failure::Recoverable(e)) => e,
    };
    let e4 = match close(single_body(constants, text)) {
        Ok(found) => return Ok(found),
        Err(Failure::Fatal(e)) => return Err(Failure::Fatal(e)),
        Err(Failure::Recoverable(e)) => e,
    };
    Err(no_alternative_at(text, e1.or(e2).or(e3).or(e4)))
}

/// Takes `match` and the blank space after it from the front of `text`.
fn match_prefix<'a>(text: &'a str) -> (r: Result<(&'a str, &'a str), Failure>)
    ensures
        outcome(r) == spec_match_prefix(text@),
        shorter(text, r),
{
    let (rest, _) = keyword(text, "match")?;
    multispace1(rest)
}

/// Takes the `u16` that what `extractor` takes out of an event is compared
/// with from the front of `text`.
fn compared<'a>(constants: &Constants, text: &'a str, extractor: Extractor) -> (r: Result<
    (&'a str, Matcher),
    Failure,
>)
    ensures
        outcome(r) == spec_compared(constants@, text@, extractor),
        shorter(text, r),
{
    let (rest, value) = literal_or_constant(constants, text)?;
    let code = recover(value.to_u16())?;
    Ok((rest, Matcher::equals(extractor, code)))
}

/// Takes the `;` that ends what `r` took.
pub fn end<'a, T: DeepView>(r: Result<(&'a str, T), Failure>) -> (out: Result<
    (&'a str, T),
    Failure,
>)
    ensures
        outcome(out) == ended(outcome(r)),
        match (r, out) {
            (Ok((before, _)), Ok((rest, _))) => rest@.len() < before@.len(),
            _ => true,
        },
{
    let (rest, value) = r?;
    let (rest, _) = symbol(rest, SEMICOLON)?;
    Ok((rest, value))
}

/// Takes the `;` that ends what `r` took; its want is fatal.
pub fn terminate<'a, T: DeepView>(r: Result<(&'a str, T), Failure>) -> (out: Result<
    (&'a str, T),
    Failure,
>)
    ensures
        outcome(out) == terminated(outcome(r)),
        match (r, out) {
            (Ok((before, _)), Ok((rest, _))) => rest@.len() < before@.len(),
            _ => true,
        },
{
    let (rest, value) = r?;
    match symbol(rest, SEMICOLON) {
        Ok((rest, _)) => Ok((rest, value)),
        Err(f) => Err(f.cut()),
    }
}

/// Takes `match <word> <u16>;` from the front of `text`.
fn equality<'a>(
    constants: &Constants,
    text: &'a str,
    word: &'static str,
    extractor: Extractor,
) -> (r: Result<(&'a str, Matcher), Failure>)
    ensures
        outcome(r) == spec_equality(constants@, text@, word, extractor),
        shorter(text, r),
{
    let (rest, _) = match_prefix(text)?;
    let (rest, _) = keyword(rest, word)?;
    match multispace1(rest) {
        Ok((rest, _)) => cut(end(compared(constants, rest, extractor))),
        Err(f) => Err(f.cut()),
    }
}

/// Takes `match tick;` from the front of `text`.
fn tick<'a>(text: &'a str, tick_code: u16) -> (r: Result<(&'a str, Matcher), Failure>)
    ensures
        outcome(r) == spec_tick(text@, tick_code),
        shorter(text, r),
{
    let (rest, _) = match_prefix(text)?;
    let (rest, _) = keyword(rest, "tick")?;
    cut(end(Ok((rest, Matcher::equals(Extractor::EventCodeExtractor, tick_code)))))
}

/// Takes `match` and a block from the front of `text`.
fn block_match<'a>(constants: &Constants, text: &'a str) -> (r: Result<(&'a str, Matcher), Failure>)
    ensures
        outcome(r) == spec_block_match(constants@, text@),
        shorter(text, r),
{
    let (rest, _) = match_prefix(text)?;
    block(constants, rest)
}

/// Takes a predicate from the front of `text`. `match event <u16>;` tests
/// the code of an event and `match producer <u16>;` the address of its
/// producer, the number being a literal or the name of a constant;
/// `match tick;` tests the code of an event against `tick_code`; `match` and
/// a block gives the predicate of the block. A text that is none of these
/// fails at `text`, with the failures of the four forms as the cause. After
/// `event`, `producer` and `tick` a failure is fatal: a number that is no
/// `u16` fails as a conversion that is not allowed, and a missing `;` fails
/// at what follows the number or the keyword, as a `;` that was expected.
pub fn match_statement<'a>(constants: &Constants, tick_code: u16, text: &'a str) -> (r: Result<
    (&'a str, Matcher),
    Failure,
>)
    ensures
        outcome(r) == spec_match_statement(constants@, tick_code, text@),
        shorter(text, r),
{
    let e1 = match equality(constants, text, "event", Extractor::EventCodeExtractor) {
        Ok(found) => return Ok(found),
        Err(Failure::Fatal(e)) => return Err(Failure::Fatal(e)),
        Err(Failure::Recoverable(e)) => e,
    };
    let e2 = match equality(
        constants,
        text,
        "producer",
        Extractor::EventProducerAddressExtractor,
    ) {
        Ok(found) => return Ok(found),
        Err(Failure::Fatal(e)) => return Err(Failure::Fatal(e)),
        Err(Failure::Recoverable(e)) => e,
    };
    let e3 = match tick(text, tick_code) {
        Ok(found) => return Ok(found),
        Err(Failure::Fatal(e)) => return Err(Failure::Fatal(e)),
        Err(Failure::Recoverable(e)) => e,
    };
    let e4 = match block_match(constants, text) {
        Ok(found) => return Ok(found),
        Err(Failure::Fatal(e)) => return Err(Failure::Fatal(e)),
        Err(Failure::Recoverable(e)) => e,
    };
    Err(no_alternative_at(text, e1.or(e2).or(e3).or(e4)))
}

/// `if`, blank space and a predicate: the guard of a statement. After `if`
/// a failure is fatal.
pub open spec fn spec_guard(constants: SpecConstants, tick: u16, s: Seq<char>) -> Outcome<
    SpecMatcher,
> {
    match spec_keyword(s, "if") {
        Outcome::Parsed { rest, value } => (match spec_multispace1(rest) {
            Outcome::Parsed { rest, value } => spec_match_statement(constants, tick, rest),
            Outcome::Recoverable(e) => Outcome::Recoverable(e),
            Outcome::Fatal(e) => Outcome::Fatal(e),
        }).cut(),
        Outcome::Recoverable(e) => Outcome::Recoverable(e),
        Outcome::Fatal(e) => Outcome::Fatal(e),
    }
}

/// Takes the guard of a statement, `if match ...`, from the front of `text`.
pub fn guard<'a>(constants: &Constants, tick_code: u16, text: &'a str) -> (r: Result<
    (&'a str, Matcher),
    Failure,
>)
    ensures
        outcome(r) == spec_guard(constants@, tick_code, text@),
        shorter(text, r),
{
    let (rest, _) = keyword(text, "if")?;
    match multispace1(rest) {
        Ok((rest, _)) => cut(match_statement(constants, tick_code, rest)),
        Err(f) => Err(f.cut()),
    }
}

} // verus!
