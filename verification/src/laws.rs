//! What holds of the grammar as a whole.
use crate::cast::{not_allowed, spec_to_bool, spec_to_u16, spec_to_u32, spec_to_u8};
use crate::config::{Extractor, Producer, SpecEventProcessor, SpecFilter, SpecMatcher};
use crate::error::{leaf, ErrorKind, Expectation, Outcome, SpecError};
use crate::extractor::{extractor_named, spec_extractor};
use crate::filter::{filter_arity, spec_filter};
use crate::item::{spec_identifier, spec_item_call, wrong_count};
use crate::keyword::spec_keyword;
use crate::literal::{
    number_within, spec_boolean, spec_literal, spec_literal_or_constant, spec_number, SpecLiteral,
};
use crate::locality::lemma_block_local;
use crate::parser::{spec_arguments, spec_multispace0, spec_multispace1, spec_name};
use crate::producer::{producer_arity, spec_producer};
use crate::progress::{lemma_block_advances, lemma_keyword_advances, lemma_scan_advances};
use crate::statement::const_statement::spec_const_statement;
use crate::statement::do_statement::{spec_do_content, spec_do_statement};
use crate::statement::fire_statement::{spec_fire_base, spec_fire_content};
use crate::statement::let_statement::{spec_binding, spec_let_statement};
use crate::statement::match_statement::{
    combined, spec_block, spec_compared, spec_match_prefix, spec_match_statement, spec_not_slot,
    spec_pair, spec_pair_body,
};
use crate::statement::send_statement::{spec_rule, spec_send_statement, spec_spaced_guard};
use crate::statement::set_statement::spec_set_statement;
use crate::symbol::{spec_symbol, CLOSE_BRACE, COMMA, OPEN_BRACE, SEMICOLON};
use crate::table::{SpecConstants, SpecVariables};
use crate::text::{is_alpha, is_space, lemma_run_length, run_length, CharClass};
use vstd::prelude::*;

verus! {

/// The digits and the type suffix of the number that `s` starts with, and
/// what follows them: the digits are hexadecimal or, where that fails,
/// decimal.
pub open spec fn written_number(s: Seq<char>) -> Option<(Seq<char>, Seq<char>, Seq<char>)> {
    match spec_number(s, CharClass::Hex) {
        Outcome::Parsed { rest, value } => Some((rest, value.0, value.1)),
        Outcome::Recoverable(_) => match spec_number(s, CharClass::Decimal) {
            Outcome::Parsed { rest, value } => Some((rest, value.0, value.1)),
            _ => None,
        },
        Outcome::Fatal(_) => None,
    }
}

/// A text that starts with a number and its type suffix does not start with
/// a boolean keyword.
pub proof fn lemma_number_is_no_boolean(s: Seq<char>)
    requires
        written_number(s) is Some,
    ensures
        spec_boolean(s) is Recoverable,
{
    reveal_strlit("true");
    reveal_strlit("false");
    lemma_run_length(s, CharClass::AlphaOrUnderscore);
    lemma_run_length(s, CharClass::Hex);
    lemma_run_length(s, CharClass::Decimal);
    let n = run_length(s, CharClass::AlphaOrUnderscore) as int;
    let word = s.take(n);
    assert(word.len() == n);
    if word == "true"@ {
        assert("true"@.len() == 4);
        assert("true"@[0] == 't');
        assert(s[0] == word[0]);
    }
    if word == "false"@ {
        assert("false"@.len() == 5);
        assert("false"@[0] == 'f' && "false"@[1] == 'a' && "false"@[2] == 'l');
        assert(s[0] == word[0]);
        assert(s[1] == word[1]);
        assert(s[2] == word[2]);
    }
}

/// A number with one of the type suffixes `u8`, `u16` and `u32`: where the
/// digits write a number that fits the type, the literal is that number in
/// that type; where they write none or one that does not fit, the literal
/// fails at the digits, as a value that was expected.
pub proof fn law_number_fits_its_type(s: Seq<char>)
    requires
        written_number(s) is Some,
    ensures
        ({
            let (rest, digits, suffix) = written_number(s)->Some_0;
            let bad = Outcome::Recoverable(leaf(digits, ErrorKind::Expected(Expectation::Value)));
            &&& suffix == "u8"@ ==> spec_literal(s) == match number_within(digits, 0xff) {
                Some(v) => Outcome::Parsed { rest, value: SpecLiteral::U8(v as u8) },
                None => bad,
            }
            &&& suffix == "u16"@ ==> spec_literal(s) == match number_within(digits, 0xffff) {
                Some(v) => Outcome::Parsed { rest, value: SpecLiteral::U16(v as u16) },
                None => bad,
            }
            &&& suffix == "u32"@ ==> spec_literal(s) == match number_within(digits, 0xffff_ffff) {
                Some(v) => Outcome::Parsed { rest, value: SpecLiteral::U32(v as u32) },
                None => bad,
            }
        }),
{
    lemma_number_is_no_boolean(s);
    reveal_strlit("u8");
    reveal_strlit("u16");
    reveal_strlit("u32");
    let (rest, digits, suffix) = written_number(s)->Some_0;
    if suffix == "u16"@ {
        assert(suffix.len() == 3);
    }
    if suffix == "u32"@ {
        assert(suffix[1] == '3');
    }
}

/// The name of a constant stands for the value of the constant.
pub proof fn law_constant_stands_for_its_value(
    constants: SpecConstants,
    s: Seq<char>,
)
    requires
        spec_name(s) is Parsed,
        constants.contains_key(spec_name(s)->Parsed_value),
    ensures
        spec_literal_or_constant(constants, s) == (Outcome::Parsed {
            rest: spec_name(s)->Parsed_rest,
            value: constants[spec_name(s)->Parsed_value],
        }),
{
}

/// The same outcome, whatever was left.
pub open spec fn result_of<T>(o: Outcome<T>) -> Option<T> {
    match o {
        Outcome::Parsed { rest, value } => Some(value),
        _ => None,
    }
}

/// An item is made of its name and of the values of its arguments: two
/// calls with the same name and the same values, written with constants or
/// with literals, make the same item, or both make none.
pub proof fn law_item_of_values(
    constants1: SpecConstants,
    s1: Seq<char>,
    constants2: SpecConstants,
    s2: Seq<char>,
    letters_only: bool,
)
    requires
        spec_item_call(constants1, s1, letters_only) is Parsed,
        spec_item_call(constants2, s2, letters_only) is Parsed,
        spec_item_call(constants1, s1, letters_only)->Parsed_value == spec_item_call(
            constants2,
            s2,
            letters_only,
        )->Parsed_value,
    ensures
        letters_only ==> result_of(spec_extractor(constants1, s1)) == result_of(
            spec_extractor(constants2, s2),
        ),
        !letters_only ==> result_of(spec_filter(constants1, s1)) == result_of(
            spec_filter(constants2, s2),
        ),
        !letters_only ==> result_of(spec_producer(constants1, s1)) == result_of(
            spec_producer(constants2, s2),
        ),
{
}

/// A literal converts to its own type and to no other: a `u8` always
/// converts to `u8`, and a `u16` never does.
pub proof fn law_strict_casts(l: SpecLiteral)
    ensures
        spec_to_u8(l) is Ok <==> l is U8,
        spec_to_u16(l) is Ok <==> l is U16,
        spec_to_u32(l) is Ok <==> l is U32,
        spec_to_bool(l) is Ok <==> l is Bool,
        l matches SpecLiteral::U8(v) ==> spec_to_u8(l) == Ok::<u8, SpecError>(v),
        l is U16 ==> spec_to_u8(l) == Err::<u8, SpecError>(not_allowed("u16", "u8")),
{
}

/// Whether `s` does not start with `;`.
pub open spec fn lacks_semicolon(s: Seq<char>) -> bool {
    s.len() == 0 || s[0] != SEMICOLON
}

/// The failure for want of a `;` at `s`.
pub open spec fn semicolon_expected<T>(s: Seq<char>) -> Outcome<T> {
    Outcome::Recoverable(leaf(s, ErrorKind::Expected(Expectation::Symbol(SEMICOLON))))
}

/// The call of an item without the `;` after it fails at what follows the
/// closing parenthesis, for want of the `;`: as an extractor, as a filter
/// and as a producer.
pub proof fn law_item_needs_semicolon(
    constants: SpecConstants,
    s: Seq<char>,
    letters_only: bool,
)
    requires
        spec_identifier(s, letters_only) is Parsed,
        spec_arguments(constants, spec_identifier(s, letters_only)->Parsed_rest) is Parsed,
        lacks_semicolon(
            spec_arguments(constants, spec_identifier(s, letters_only)->Parsed_rest)->Parsed_rest,
        ),
    ensures
        ({
            let after = spec_arguments(
                constants,
                spec_identifier(s, letters_only)->Parsed_rest,
            )->Parsed_rest;
            &&& spec_item_call(constants, s, letters_only) == semicolon_expected::<
                (Seq<char>, Seq<SpecLiteral>),
            >(after)
            &&& letters_only ==> spec_extractor(constants, s) == semicolon_expected::<Extractor>(
                after,
            )
            &&& !letters_only ==> spec_filter(constants, s) == semicolon_expected::<SpecFilter>(
                after,
            )
            &&& !letters_only ==> spec_producer(constants, s) == semicolon_expected::<Producer>(
                after,
            )
        }),
{
}

/// The failure for want of a `;` at `s`, once the statement is recognised.
pub open spec fn semicolon_missing<T>(s: Seq<char>) -> Outcome<T> {
    Outcome::Fatal(leaf(s, ErrorKind::Expected(Expectation::Symbol(SEMICOLON))))
}

/// A declaration without the `;` after it fails at what follows the
/// literal, for want of the `;`, and fatally: `let` where `strict`, and
/// else `const`.
pub proof fn law_declaration_needs_semicolon(s: Seq<char>, strict: bool)
    requires
        spec_keyword(
            s,
            if strict {
                "let"
            } else {
                "const"
            },
        ) is Parsed,
        spec_binding(
            spec_keyword(
                s,
                if strict {
                    "let"
                } else {
                    "const"
                },
            )->Parsed_rest,
            strict,
        ) is Parsed,
        lacks_semicolon(
            spec_binding(
                spec_keyword(
                    s,
                    if strict {
                        "let"
                    } else {
                        "const"
                    },
                )->Parsed_rest,
                strict,
            )->Parsed_rest,
        ),
    ensures
        ({
            let word = if strict {
                "let"
            } else {
                "const"
            };
            let after = spec_binding(spec_keyword(s, word)->Parsed_rest, strict)->Parsed_rest;
            &&& strict ==> spec_let_statement(s) == semicolon_missing::<
                (Seq<char>, SpecLiteral),
            >(after)
            &&& !strict ==> spec_const_statement(s) == semicolon_missing::<
                (Seq<char>, SpecLiteral),
            >(after)
        }),
{
}

/// A `send` or a `set` without its end fails for want of the `;`, at what
/// follows the statement and the blank space after it: where `base` is what
/// was read of the statement, no guard stands after it, and no `;`.
pub proof fn law_rule_needs_semicolon(
    constants: SpecConstants,
    tick: u16,
    s: Seq<char>,
    base: Outcome<SpecEventProcessor>,
    guard_first: bool,
)
    requires
        base is Parsed,
        spec_spaced_guard(constants, tick, base->Parsed_rest) is Recoverable,
        lacks_semicolon(spec_multispace0(base->Parsed_rest)),
    ensures
        spec_rule(constants, tick, s, base, guard_first) == semicolon_missing::<
            SpecEventProcessor,
        >(spec_multispace0(base->Parsed_rest)),
{
}

/// A guard is looked for only where `if` stands: after the rule and blank
/// space, a text that does not start with the word `if` is no guard, and a
/// text that does is one or fails fatally.
pub proof fn law_guard_needs_if(constants: SpecConstants, tick: u16, s: Seq<char>)
    ensures
        spec_spaced_guard(constants, tick, s) is Recoverable <==> !(spec_multispace1(s) is Parsed
            && spec_keyword(spec_multispace1(s)->Parsed_rest, "if") is Parsed),
{
}

/// `match event <u16>`, `match producer <u16>` and `match tick` without the
/// `;` after them fail for want of the `;`, at what follows the number or
/// the keyword.
pub proof fn law_match_needs_semicolon(constants: SpecConstants, tick: u16, s: Seq<char>)
    requires
        spec_match_prefix(s) is Parsed,
    ensures
        ({
            let body = spec_match_prefix(s)->Parsed_rest;
            let operand = |word: &'static str, extractor: Extractor|
                spec_compared(
                    constants,
                    spec_multispace1(spec_keyword(body, word)->Parsed_rest)->Parsed_rest,
                    extractor,
                );
            &&& spec_keyword(body, "event") is Parsed && spec_multispace1(
                spec_keyword(body, "event")->Parsed_rest,
            ) is Parsed && operand("event", Extractor::EventCodeExtractor) is Parsed
                && lacks_semicolon(operand("event", Extractor::EventCodeExtractor)->Parsed_rest)
                ==> spec_match_statement(constants, tick, s) == semicolon_missing::<SpecMatcher>(
                operand("event", Extractor::EventCodeExtractor)->Parsed_rest,
            )
            &&& spec_keyword(body, "producer") is Parsed && spec_multispace1(
                spec_keyword(body, "producer")->Parsed_rest,
            ) is Parsed && operand("producer", Extractor::EventProducerAddressExtractor) is Parsed
                && lacks_semicolon(
                operand("producer", Extractor::EventProducerAddressExtractor)->Parsed_rest,
            ) ==> spec_match_statement(constants, tick, s) == semicolon_missing::<SpecMatcher>(
                operand("producer", Extractor::EventProducerAddressExtractor)->Parsed_rest,
            )
            &&& spec_keyword(body, "tick") is Parsed && lacks_semicolon(
                spec_keyword(body, "tick")->Parsed_rest,
            ) ==> spec_match_statement(constants, tick, s) == semicolon_missing::<SpecMatcher>(
                spec_keyword(body, "tick")->Parsed_rest,
            )
        }),
{
    reveal_strlit("event");
    reveal_strlit("producer");
    reveal_strlit("tick");
    let body = spec_match_prefix(s)->Parsed_rest;
    let word = body.take(run_length(body, CharClass::AlphaOrUnderscore) as int);
    if spec_keyword(body, "producer") is Parsed {
        assert(word.len() == 8);
    }
    if spec_keyword(body, "tick") is Parsed {
        assert(word.len() == 4);
    }
}

/// A call with another number of arguments than the item takes fails at
/// what follows the call, with the number that the item takes and the
/// number that was found.
pub proof fn law_argument_count(
    constants: SpecConstants,
    s: Seq<char>,
    letters_only: bool,
)
    requires
        spec_item_call(constants, s, letters_only) is Parsed,
    ensures
        ({
            let rest = spec_item_call(constants, s, letters_only)->Parsed_rest;
            let (name, arguments) = spec_item_call(constants, s, letters_only)->Parsed_value;
            &&& letters_only && extractor_named(name) is Some && arguments.len() != 0
                ==> spec_extractor(constants, s) == Outcome::<Extractor>::Recoverable(
                wrong_count(rest, 0, arguments.len()),
            )
            &&& !letters_only && filter_arity(name) is Some && filter_arity(name)
                != Some(arguments.len()) ==> spec_filter(constants, s) == Outcome::<
                SpecFilter,
            >::Recoverable(wrong_count(rest, filter_arity(name)->Some_0, arguments.len()))
            &&& !letters_only && producer_arity(name) is Some && producer_arity(name)
                != Some(arguments.len()) ==> spec_producer(constants, s) == Outcome::<
                Producer,
            >::Recoverable(wrong_count(rest, producer_arity(name)->Some_0, arguments.len()))
        }),
{
}

/// A call of a name that no item of the kind has fails at the name, as an
/// extractor, a filter or a producer that is not known.
pub proof fn law_unknown_item(
    constants: SpecConstants,
    s: Seq<char>,
    letters_only: bool,
)
    requires
        spec_item_call(constants, s, letters_only) is Parsed,
    ensures
        ({
            let name = spec_item_call(constants, s, letters_only)->Parsed_value.0;
            &&& letters_only && extractor_named(name) is None ==> spec_extractor(constants, s)
                == Outcome::<Extractor>::Recoverable(leaf(name, ErrorKind::UnknownExtractor))
            &&& !letters_only && filter_arity(name) is None ==> spec_filter(constants, s)
                == Outcome::<SpecFilter>::Recoverable(leaf(name, ErrorKind::UnknownFilter))
            &&& !letters_only && producer_arity(name) is None ==> spec_producer(constants, s)
                == Outcome::<Producer>::Recoverable(leaf(name, ErrorKind::UnknownProducer))
        }),
{
}

/// The keyword of a disjunction where `any`, and else of a conjunction.
pub open spec fn pair_word(any: bool) -> &'static str {
    if any {
        "or"
    } else {
        "and"
    }
}

/// The two slots of the `or { M, M }` or `and { M, M }` that `s` starts
/// with, each read as a block of its own, and what follows the closing
/// brace.
pub open spec fn slots(constants: SpecConstants, s: Seq<char>, any: bool) -> Option<
    (SpecMatcher, SpecMatcher, Seq<char>),
> {
    match spec_keyword(s, pair_word(any)) {
        Outcome::Parsed { rest, value } => match spec_symbol(spec_multispace0(rest), OPEN_BRACE) {
            Outcome::Parsed { rest, value } => match spec_block(constants, spec_multispace0(rest)) {
                Outcome::Parsed { rest, value: left } => match spec_symbol(
                    spec_multispace0(rest),
                    COMMA,
                ) {
                    Outcome::Parsed { rest, value } => match spec_block(
                        constants,
                        spec_multispace0(rest),
                    ) {
                        Outcome::Parsed { rest, value: right } => match spec_symbol(
                            spec_multispace0(rest),
                            CLOSE_BRACE,
                        ) {
                            Outcome::Parsed { rest, value } => Some((left, right, rest)),
                            _ => None,
                        },
                        _ => None,
                    },
                    _ => None,
                },
                _ => None,
            },
            _ => None,
        },
        _ => None,
    }
}

/// Blocks nest: where the slots of `or { M, M }` are blocks for the
/// predicates `left` and `right`, the whole is the block for their
/// disjunction, and with `and` for their conjunction, whatever the slots
/// are made of.
pub proof fn law_blocks_nest(constants: SpecConstants, s: Seq<char>, any: bool)
    requires
        slots(constants, s, any) is Some,
    ensures
        ({
            let (left, right, rest) = slots(constants, s, any)->Some_0;
            spec_block(constants, s) == Outcome::Parsed { rest, value: combined(any, left, right) }
        }),
{
    reveal_strlit("not");
    reveal_strlit("or");
    reveal_strlit("and");
    lemma_run_length(s, CharClass::AlphaOrUnderscore);
    let word = s.take(run_length(s, CharClass::AlphaOrUnderscore) as int);
    assert(word == pair_word(any)@);
    assert(word.len() != "not"@.len() || word[0] != "not"@[0]);
    assert(spec_keyword(s, "not") is Recoverable);
    if !any {
        assert(word.len() != "or"@.len());
        assert(spec_keyword(s, "or") is Recoverable);
    }
    lemma_keyword_advances(s, pair_word(any));
    let r0 = spec_keyword(s, pair_word(any))->Parsed_rest;
    let body = spec_multispace0(r0);
    lemma_scan_advances(r0, CharClass::Space);
    let r1 = spec_symbol(body, OPEN_BRACE)->Parsed_rest;
    let first = spec_multispace0(r1);
    lemma_scan_advances(r1, CharClass::Space);
    lemma_block_advances(constants, first);
    let r2 = spec_block(constants, first)->Parsed_rest;
    lemma_scan_advances(r2, CharClass::Space);
    let r3 = spec_symbol(spec_multispace0(r2), COMMA)->Parsed_rest;
    let second = spec_multispace0(r3);
    lemma_scan_advances(r3, CharClass::Space);
    assert(first.len() < s.len());
    assert(second.len() < s.len());
    let (left, right, rest) = slots(constants, s, any)->Some_0;
    assert(spec_pair_body(constants, body, any, s.len()) == Outcome::Parsed {
        rest: spec_block(constants, second)->Parsed_rest,
        value: combined(any, left, right),
    });
    assert(spec_pair(constants, s, any) == spec_pair_body(constants, body, any, s.len()));
}

/// The text `y` with one space before it.
pub open spec fn spaced(y: Seq<char>) -> Seq<char> {
    seq![' '] + y
}

/// The pair of the blocks `t1` and `t2` as a text: the keyword, ` { `, the
/// first block, ` , `, the second block and ` }`, with `rest` after it.
pub open spec fn pair_text(any: bool, t1: Seq<char>, t2: Seq<char>, rest: Seq<char>) -> Seq<char> {
    pair_word(any)@ + spaced(
        seq!['{'] + spaced(t1 + spaced(seq![','] + spaced(t2 + spaced(seq!['}'] + rest)))),
    )
}

/// A block starts with `{` or with a letter.
pub proof fn lemma_block_starts(constants: SpecConstants, t: Seq<char>)
    requires
        spec_block(constants, t) is Parsed,
    ensures
        t.len() > 0,
        !is_space(t[0]),
{
    lemma_run_length(t, CharClass::AlphaOrUnderscore);
}

/// One space before a text that starts with no blank space is the blank
/// space before it.
pub proof fn lemma_spaced(y: Seq<char>)
    requires
        y.len() > 0,
        !is_space(y[0]),
    ensures
        spec_multispace0(spaced(y)) == y,
{
    let u = spaced(y);
    assert(u.skip(1) =~= y);
    assert(run_length(u.skip(1), CharClass::Space) == 0);
    assert(run_length(u, CharClass::Space) == 1);
}

/// A word of letters before a space is read as that word.
pub proof fn lemma_word_then_space(word: Seq<char>, y: Seq<char>)
    requires
        forall|i: int| 0 <= i < word.len() ==> is_alpha(#[trigger] word[i]),
    ensures
        run_length(word + spaced(y), CharClass::AlphaOrUnderscore) == word.len(),
    decreases word.len(),
{
    let u = word + spaced(y);
    if word.len() == 0 {
        assert(u[0] == ' ');
    } else {
        assert(u[0] == word[0]);
        assert(u.skip(1) =~= word.skip(1) + spaced(y));
        assert forall|i: int| 0 <= i < word.skip(1).len() implies is_alpha(
            #[trigger] word.skip(1)[i],
        ) by {
            assert(word.skip(1)[i] == word[i + 1]);
        }
        lemma_word_then_space(word.skip(1), y);
    }
}

/// Blocks nest, in the order of the text: where `t1` is, to its end, a
/// block for the predicate `left` and `t2` one for `right`, of whatever
/// depth, `or { t1 , t2 }` is the block for the disjunction of `left` and
/// `right`, and `and { t1 , t2 }` the block for their conjunction, whatever
/// follows the closing brace. The left slot stays left, and nothing of
/// either is dropped.
pub proof fn law_whole_blocks_nest(
    constants: SpecConstants,
    any: bool,
    t1: Seq<char>,
    t2: Seq<char>,
    rest: Seq<char>,
)
    requires
        spec_block(constants, t1) is Parsed,
        spec_block(constants, t1)->Parsed_rest.len() == 0,
        spec_block(constants, t2) is Parsed,
        spec_block(constants, t2)->Parsed_rest.len() == 0,
    ensures
        spec_block(constants, pair_text(any, t1, t2, rest)) == (Outcome::Parsed {
            rest,
            value: combined(
                any,
                spec_block(constants, t1)->Parsed_value,
                spec_block(constants, t2)->Parsed_value,
            ),
        }),
{
    reveal_strlit("or");
    reveal_strlit("and");
    let word = pair_word(any)@;
    let x5 = seq!['}'] + rest;
    let x4 = t2 + spaced(x5);
    let x3 = seq![','] + spaced(x4);
    let x2 = t1 + spaced(x3);
    let x1 = seq!['{'] + spaced(x2);
    let s = word + spaced(x1);
    assert(s == pair_text(any, t1, t2, rest));
    lemma_word_then_space(word, x1);
    assert(s.take(word.len() as int) =~= word);
    assert(s.skip(word.len() as int) =~= spaced(x1));
    assert(spec_keyword(s, pair_word(any)) == Outcome::Parsed { rest: spaced(x1), value: word });
    lemma_spaced(x1);
    assert(x1.skip(1) =~= spaced(x2));
    lemma_block_starts(constants, t1);
    assert(x2[0] == t1[0]);
    lemma_spaced(x2);
    lemma_block_local(constants, t1, spaced(x3));
    assert(spec_block(constants, t1)->Parsed_rest + spaced(x3) =~= spaced(x3));
    lemma_spaced(x3);
    assert(x3.skip(1) =~= spaced(x4));
    lemma_block_starts(constants, t2);
    assert(x4[0] == t2[0]);
    lemma_spaced(x4);
    lemma_block_local(constants, t2, spaced(x5));
    assert(spec_block(constants, t2)->Parsed_rest + spaced(x5) =~= spaced(x5));
    lemma_spaced(x5);
    assert(x5.skip(1) =~= rest);
    assert(slots(constants, s, any) == Some(
        (spec_block(constants, t1)->Parsed_value, spec_block(constants, t2)->Parsed_value, rest),
    ));
    law_blocks_nest(constants, s, any);
}

/// The slot of the `not { M }` that `s` starts with, read as a block of its
/// own, and what follows the closing brace.
pub open spec fn negated_slot(constants: SpecConstants, s: Seq<char>) -> Option<
    (SpecMatcher, Seq<char>),
> {
    match spec_keyword(s, "not") {
        Outcome::Parsed { rest, value } => match spec_symbol(spec_multispace0(rest), OPEN_BRACE) {
            Outcome::Parsed { rest, value } => match spec_block(constants, spec_multispace0(rest)) {
                Outcome::Parsed { rest, value: inner } => match spec_symbol(
                    spec_multispace0(rest),
                    CLOSE_BRACE,
                ) {
                    Outcome::Parsed { rest, value } => Some((inner, rest)),
                    _ => None,
                },
                _ => None,
            },
            _ => None,
        },
        _ => None,
    }
}

/// Negations nest: where the slot of `not { M }` is a block for the
/// predicate `inner`, the whole is the block for its negation, whatever the
/// slot is made of.
pub proof fn law_negation_nests(constants: SpecConstants, s: Seq<char>)
    requires
        negated_slot(constants, s) is Some,
    ensures
        ({
            let (inner, rest) = negated_slot(constants, s)->Some_0;
            spec_block(constants, s) == Outcome::Parsed {
                rest,
                value: SpecMatcher::Not(Box::new(inner)),
            }
        }),
{
    lemma_keyword_advances(s, "not");
    let r0 = spec_keyword(s, "not")->Parsed_rest;
    lemma_scan_advances(r0, CharClass::Space);
    let r1 = spec_symbol(spec_multispace0(r0), OPEN_BRACE)->Parsed_rest;
    lemma_scan_advances(r1, CharClass::Space);
    assert(spec_multispace0(r1).len() < s.len());
    assert(spec_not_slot(constants, r1, s.len()) == spec_block(constants, spec_multispace0(r1)));
}

/// Negations nest: where `t` is, to its end, a block for the predicate
/// `inner`, of whatever depth, `not { t }` is the block for the negation of
/// `inner`, whatever follows the closing brace.
pub proof fn law_whole_negation_nests(constants: SpecConstants, t: Seq<char>, rest: Seq<char>)
    requires
        spec_block(constants, t) is Parsed,
        spec_block(constants, t)->Parsed_rest.len() == 0,
    ensures
        spec_block(
            constants,
            "not"@ + spaced(seq!['{'] + spaced(t + spaced(seq!['}'] + rest))),
        ) == (Outcome::Parsed {
            rest,
            value: SpecMatcher::Not(Box::new(spec_block(constants, t)->Parsed_value)),
        }),
{
    reveal_strlit("not");
    let word = "not"@;
    let x3 = seq!['}'] + rest;
    let x2 = t + spaced(x3);
    let x1 = seq!['{'] + spaced(x2);
    let s = word + spaced(x1);
    lemma_word_then_space(word, x1);
    assert(s.take(word.len() as int) =~= word);
    assert(s.skip(word.len() as int) =~= spaced(x1));
    assert(spec_keyword(s, "not") == Outcome::Parsed { rest: spaced(x1), value: word });
    lemma_spaced(x1);
    assert(x1.skip(1) =~= spaced(x2));
    lemma_block_starts(constants, t);
    assert(x2[0] == t[0]);
    lemma_spaced(x2);
    lemma_block_local(constants, t, spaced(x3));
    assert(spec_block(constants, t)->Parsed_rest + spaced(x3) =~= spaced(x3));
    lemma_spaced(x3);
    assert(x3.skip(1) =~= rest);
    assert(negated_slot(constants, s) == Some((spec_block(constants, t)->Parsed_value, rest)));
    law_negation_nests(constants, s);
}

/// A keyword commits: once `let`, `send` or `set` is read, the statement
/// does not fail recoverably; once `do` or `fire` is read, it fails
/// recoverably only for want of the closing brace, after all the rest was
/// read.
pub proof fn law_keyword_commits(
    constants: SpecConstants,
    variables: SpecVariables,
    tick: u16,
    s: Seq<char>,
)
    ensures
        spec_keyword(s, "let") is Parsed ==> !(spec_let_statement(s) is Recoverable),
        spec_keyword(s, "send") is Parsed ==> !(spec_send_statement(constants, tick, s)
            is Recoverable),
        spec_keyword(s, "set") is Parsed ==> !(spec_set_statement(constants, variables, tick, s)
            is Recoverable),
        spec_keyword(s, "do") is Parsed && spec_do_statement(constants, tick, s) is Recoverable
            ==> spec_do_content(constants, tick, spec_keyword(s, "do")->Parsed_rest) is Parsed,
        spec_keyword(s, "fire") is Parsed && spec_fire_base(constants, s) is Recoverable
            ==> spec_fire_content(constants, spec_keyword(s, "fire")->Parsed_rest) is Parsed,
{
}

} // verus!
