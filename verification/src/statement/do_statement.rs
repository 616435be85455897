//! `do { match ...; ... fire ...; ... }`: a rule, with its predicates and
//! its actions.
use crate::config::{
    both, Creator, EventProcessor, Matcher, SpecCreator, SpecEventProcessor, SpecMatcher,
};
use crate::error::{
    caused, cut, outcome, shorter, within, ErrorKind, Failure, Outcome, ParserError, ScannerKind,
};
use crate::keyword::{keyword, spec_keyword};
use crate::parser::{after, multispace0, spec_multispace0};
use crate::progress::{lemma_fire_advances, lemma_match_advances, lemma_scan_advances};
use crate::statement::fire_statement::{fire_statement, spec_fire_statement};
use crate::statement::match_statement::{close, closed, match_statement, spec_match_statement};
use crate::symbol::{spec_symbol, symbol, OPEN_BRACE};
use crate::table::{Constants, SpecConstants};
use crate::text::CharClass;
use vstd::prelude::*;
use vstd::string::*;

verus! {

/// The predicates of a rule after the first: each is a predicate after
/// blank space, which may be missing, and joins what stands before it,
/// `so_far`, in a conjunction. The list ends before the first text that is
/// no predicate.
pub open spec fn spec_more_matchers(
    constants: SpecConstants,
    tick: u16,
    s: Seq<char>,
    so_far: SpecMatcher,
) -> Outcome<SpecMatcher>
    decreases s.len(),
{
    proof {
        lemma_scan_advances(s, CharClass::Space);
        lemma_match_advances(constants, tick, spec_multispace0(s));
    }
    match spec_match_statement(constants, tick, spec_multispace0(s)) {
        Outcome::Parsed { rest, value } => spec_more_matchers(
            constants,
            tick,
            rest,
            both(so_far, value),
        ),
        Outcome::Recoverable(_) => Outcome::Parsed { rest: s, value: so_far },
        Outcome::Fatal(e) => Outcome::Fatal(e),
    }
}

/// The predicates of a rule, one at least, as one predicate: the
/// conjunction of them all, nested to the left, in the order of the text.
/// Where the first is missing, its failure is the cause.
pub open spec fn spec_matchers(constants: SpecConstants, tick: u16, s: Seq<char>) -> Outcome<
    SpecMatcher,
> {
    match spec_match_statement(constants, tick, spec_multispace0(s)) {
        Outcome::Parsed { rest, value } => spec_more_matchers(constants, tick, rest, value),
        Outcome::Recoverable(e) => Outcome::Recoverable(
            caused(s, ErrorKind::Scanner(ScannerKind::Many1), e),
        ),
        Outcome::Fatal(e) => Outcome::Fatal(e),
    }
}

/// The actions of a rule: each is an action after blank space, which may be
/// missing. The list ends before the first text that is no action.
pub open spec fn spec_creators(constants: SpecConstants, tick: u16, s: Seq<char>) -> Outcome<
    Seq<SpecCreator>,
>
    decreases s.len(),
{
    let end = Outcome::Parsed { rest: s, value: Seq::empty() };
    proof {
        lemma_scan_advances(s, CharClass::Space);
        lemma_fire_advances(constants, tick, spec_multispace0(s));
    }
    match spec_fire_statement(constants, tick, spec_multispace0(s)) {
        Outcome::Parsed { rest, value } => after(
            seq![value],
            spec_creators(constants, tick, rest),
        ),
        Outcome::Recoverable(_) => end,
        Outcome::Fatal(e) => Outcome::Fatal(e),
    }
}

/// What follows the keyword `do`: blank space, which may be missing, `{`,
/// the predicates and the actions.
pub open spec fn spec_do_content(constants: SpecConstants, tick: u16, s: Seq<char>) -> Outcome<
    SpecEventProcessor,
> {
    match spec_symbol(spec_multispace0(s), OPEN_BRACE) {
        Outcome::Parsed { rest, value } => match spec_matchers(constants, tick, rest) {
            Outcome::Parsed { rest, value: matcher } => match spec_creators(constants, tick, rest) {
                Outcome::Parsed { rest, value: creators } => Outcome::Parsed {
                    rest,
                    value: SpecEventProcessor { matcher, creators },
                },
                Outcome::Recoverable(e) => Outcome::Recoverable(e),
                Outcome::Fatal(e) => Outcome::Fatal(e),
            },
            Outcome::Recoverable(e) => Outcome::Recoverable(e),
            Outcome::Fatal(e) => Outcome::Fatal(e),
        },
        Outcome::Recoverable(e) => Outcome::Recoverable(e),
        Outcome::Fatal(e) => Outcome::Fatal(e),
    }
}

/// A rule: `do {`, one predicate or more, any number of actions, and `}`.
/// After `do` a failure before the closing brace is fatal.
pub open spec fn spec_do_statement(
    constants: SpecConstants,
    tick: u16,
    s: Seq<char>,
) -> Outcome<SpecEventProcessor> {
    closed(
        match spec_keyword(s, "do") {
            Outcome::Parsed { rest, value } => spec_do_content(constants, tick, rest).cut(),
            Outcome::Recoverable(e) => Outcome::Recoverable(e),
            Outcome::Fatal(e) => Outcome::Fatal(e),
        },
    )
}

/// Takes the predicates of a rule from the front of `text`, and hands out
/// their conjunction.
fn matchers<'a>(constants: &Constants, tick_code: u16, text: &'a str) -> (r: Result<
    (&'a str, Matcher),
    Failure,
>)
    ensures
        outcome(r) == spec_matchers(constants@, tick_code, text@),
        shorter(text, r),
{
    let (mut rest, mut so_far) = match match_statement(constants, tick_code, multispace0(text)) {
        Ok(found) => found,
        Err(Failure::Recoverable(e)) => return Err(
            Failure::Recoverable(ParserError::append(text, ScannerKind::Many1, e)),
        ),
        Err(Failure::Fatal(e)) => return Err(Failure::Fatal(e)),
    };
    loop
        invariant
            rest@.len() < text@.len(),
            spec_matchers(constants@, tick_code, text@) == spec_more_matchers(
                constants@,
                tick_code,
                rest@,
                so_far.deep_view(),
            ),
        decreases rest@.len(),
    {
        match match_statement(constants, tick_code, multispace0(rest)) {
            Ok((next, value)) => {
                so_far = Matcher::both(so_far, value);
                rest = next;
            },
            Err(Failure::Recoverable(_)) => return Ok((rest, so_far)),
            Err(Failure::Fatal(e)) => return Err(Failure::Fatal(e)),
        }
    }
}

/// Takes the actions of a rule from the front of `text`.
fn creators<'a>(constants: &Constants, tick_code: u16, text: &'a str) -> (r: Result<
    (&'a str, Vec<Creator>),
    Failure,
>)
    ensures
        outcome(r) == spec_creators(constants@, tick_code, text@),
        within(text, r),
{
    let mut found: Vec<Creator> = Vec::new();
    let mut rest = text;
    proof {
        assert(found.deep_view() =~= Seq::empty());
        let all = spec_creators(constants@, tick_code, text@);
        if let Outcome::Parsed { rest, value } = all {
            assert(Seq::<SpecCreator>::empty() + value =~= value);
        }
    }
    loop
        invariant
            rest@.len() <= text@.len(),
            spec_creators(constants@, tick_code, text@) == after(
                found.deep_view(),
                spec_creators(constants@, tick_code, rest@),
            ),
        decreases rest@.len(),
    {
        let ghost front = found.deep_view();
        match fire_statement(constants, tick_code, multispace0(rest)) {
            Ok((next, value)) => {
                found.push(value);
                proof {
                    let tail = spec_creators(constants@, tick_code, next@);
                    assert(found.deep_view() =~= front.push(value.deep_view()));
                    if let Outcome::Parsed { rest, value: more } = tail {
                        assert(front + (seq![value.deep_view()] + more) =~= found.deep_view()
                            + more);
                    }
                }
                rest = next;
            },
            Err(Failure::Recoverable(_)) => {
                proof {
                    assert(front + Seq::<SpecCreator>::empty() =~= front);
                }
                return Ok((rest, found));
            },
            Err(Failure::Fatal(e)) => return Err(Failure::Fatal(e)),
        }
    }
}

/// Takes what follows the keyword `do` from the front of `text`.
fn do_content<'a>(constants: &Constants, tick_code: u16, text: &'a str) -> (r: Result<
    (&'a str, EventProcessor),
    Failure,
>)
    ensures
        outcome(r) == spec_do_content(constants@, tick_code, text@),
        shorter(text, r),
{
    let (rest, _) = symbol(multispace0(text), OPEN_BRACE)?;
    let (rest, matcher) = matchers(constants, tick_code, rest)?;
    let (rest, creators) = creators(constants, tick_code, rest)?;
    Ok((rest, EventProcessor { matcher, creators }))
}

/// Takes a rule from the front of `text`: `do {`, the predicates, each a
/// `match ...`, the actions, each a `fire ...`, and `}`. The rule's
/// predicate is the conjunction of its predicates, nested to the left in
/// the order of the text; a rule with one predicate has that predicate. Its
/// actions stand in the order of the text. After `do`, a failure before the
/// closing brace is fatal: a rule without a predicate fails there, with the
/// failure of the predicate as the cause.
pub fn do_statement<'a>(constants: &Constants, tick_code: u16, text: &'a str) -> (r: Result<
    (&'a str, EventProcessor),
    Failure,
>)
    ensures
        outcome(r) == spec_do_statement(constants@, tick_code, text@),
        shorter(text, r),
{
    let (rest, _) = keyword(text, "do")?;
    close(cut(do_content(constants, tick_code, rest)))
}

} // verus!
