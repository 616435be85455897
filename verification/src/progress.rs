//! Every step that takes something leaves less than it was given: what the
//! recursive rules of the grammar rest on.
use crate::config::{both, Extractor, SpecEventProcessor, SpecMatcher};
use crate::error::Outcome;
use crate::extractor::spec_extractor;
use crate::filter::spec_filter;
use crate::item::{spec_identifier, spec_item_call};
use crate::keyword::spec_keyword;
use crate::literal::{
    lemma_index_of, spec_boolean, spec_color, spec_literal, spec_literal_or_constant, spec_number,
    spec_state_variable, spec_string,
};
use crate::parser::{
    spec_argument, spec_argument_list, spec_arguments, spec_more_arguments, spec_multispace0,
    spec_multispace1, spec_name, spec_scan0, spec_scan1,
};
use crate::producer::spec_producer;
use crate::program::{first_statement, spec_statement};
use crate::statement::const_statement::spec_const_statement;
use crate::statement::do_statement::{
    spec_creators, spec_do_content, spec_do_statement, spec_matchers, spec_more_matchers,
};
use crate::statement::fire_statement::{spec_fire_base, spec_fire_content, spec_fire_statement};
use crate::statement::let_statement::{spec_binding, spec_declared_name, spec_let_statement};
use crate::statement::match_statement::{
    closed, ended, spec_block, spec_block_match, spec_equality, spec_extractor_and_filter,
    spec_guard, spec_match_statement, spec_not_body, spec_not_slot, spec_optional_extractor,
    spec_pair, spec_pair_body, spec_single_body, spec_spaced_filter, spec_tick,
};
use crate::statement::peripheral_statement::{
    spec_family, spec_peripheral_base, spec_peripheral_header, spec_peripheral_statement,
    spec_shape,
};
use crate::statement::send_statement::{spec_clause, spec_rule, spec_send_base, spec_send_statement};
use crate::statement::set_statement::{spec_set_base, spec_set_statement};
use crate::symbol::DOUBLE_QUOTE;
use crate::table::{SpecConstants, SpecVariables};
use crate::text::{is_alpha, lemma_run_length, CharClass};
use vstd::prelude::*;

verus! {

/// Whether what `o` left is shorter than `s`.
pub open spec fn advances<T>(s: Seq<char>, o: Outcome<T>) -> bool {
    o matches Outcome::Parsed { rest, value } ==> rest.len() < s.len()
}

/// Whether what `o` left is no longer than `s`.
pub open spec fn keeps<T>(s: Seq<char>, o: Outcome<T>) -> bool {
    o matches Outcome::Parsed { rest, value } ==> rest.len() <= s.len()
}

/// A run that is not empty leaves less than it was given, and any run no
/// more.
pub proof fn lemma_scan_advances(s: Seq<char>, class: CharClass)
    ensures
        advances(s, spec_scan1(s, class)),
        keeps(s, spec_scan0(s, class)),
        spec_multispace0(s).len() <= s.len(),
{
    lemma_run_length(s, class);
    lemma_run_length(s, CharClass::Space);
}

/// A keyword leaves less than it was given.
pub proof fn lemma_keyword_advances(s: Seq<char>, word: &'static str)
    ensures
        advances(s, spec_keyword(s, word)),
{
    lemma_run_length(s, CharClass::AlphaOrUnderscore);
}

/// A name leaves less than it was given.
pub proof fn lemma_name_advances(s: Seq<char>)
    ensures
        advances(s, spec_name(s)),
{
    lemma_run_length(s, CharClass::Word);
    if s.len() > 0 && is_alpha(s[0]) {
        assert(CharClass::Word.contains(s[0]));
    }
}

/// A literal leaves less than it was given.
pub proof fn lemma_literal_advances(s: Seq<char>)
    ensures
        advances(s, spec_literal(s)),
{
    lemma_keyword_advances(s, "false");
    lemma_keyword_advances(s, "true");
    assert(advances(s, spec_boolean(s)));
    assert(advances(s, spec_number(s, CharClass::Hex))) by {
        lemma_scan_advances(s, CharClass::Hex);
        if let Outcome::Parsed { rest, value } = spec_scan1(s, CharClass::Hex) {
            if rest.len() > 0 {
                lemma_scan_advances(rest.skip(1), CharClass::AlphaNumeric);
            }
        }
    }
    assert(advances(s, spec_number(s, CharClass::Decimal))) by {
        lemma_scan_advances(s, CharClass::Decimal);
        if let Outcome::Parsed { rest, value } = spec_scan1(s, CharClass::Decimal) {
            if rest.len() > 0 {
                lemma_scan_advances(rest.skip(1), CharClass::AlphaNumeric);
            }
        }
    }
    assert(advances(s, spec_string(s))) by {
        if s.len() > 0 {
            lemma_index_of(s.skip(1), DOUBLE_QUOTE);
        }
    }
    assert(advances(s, spec_color(s))) by {
        if s.len() > 0 {
            lemma_scan_advances(s.skip(1), CharClass::Hex);
        }
    }
}

/// A value, and an argument of a call, leave less than they were given.
pub proof fn lemma_argument_advances(constants: SpecConstants, s: Seq<char>)
    ensures
        advances(s, spec_literal_or_constant(constants, s)),
        advances(s, spec_argument(constants, s)),
{
    lemma_name_advances(s);
    lemma_literal_advances(s);
    let t = spec_multispace0(s);
    lemma_scan_advances(s, CharClass::Space);
    lemma_name_advances(t);
    lemma_literal_advances(t);
    if let Outcome::Parsed { rest, value } = spec_literal_or_constant(constants, t) {
        lemma_scan_advances(rest, CharClass::Space);
    }
}

/// The arguments after the first leave no more than they were given.
pub proof fn lemma_more_arguments_keep(constants: SpecConstants, s: Seq<char>)
    ensures
        keeps(s, spec_more_arguments(constants, s)),
    decreases s.len(),
{
    if s.len() > 0 {
        lemma_argument_advances(constants, s.skip(1));
        if let Outcome::Parsed { rest, value } = spec_argument(constants, s.skip(1)) {
            lemma_more_arguments_keep(constants, rest);
        }
    }
}

/// The arguments of a call, with their parentheses, leave less than they
/// were given.
pub proof fn lemma_arguments_advance(constants: SpecConstants, s: Seq<char>)
    ensures
        advances(s, spec_arguments(constants, s)),
{
    if s.len() > 0 {
        let t = spec_multispace0(s.skip(1));
        lemma_scan_advances(s.skip(1), CharClass::Space);
        lemma_argument_advances(constants, t);
        if let Outcome::Parsed { rest, value } = spec_argument(constants, t) {
            lemma_more_arguments_keep(constants, rest);
        }
        assert(keeps(t, spec_argument_list(constants, t)));
    }
}

/// The call of an item leaves less than it was given.
pub proof fn lemma_item_call_advances(
    constants: SpecConstants,
    s: Seq<char>,
    letters_only: bool,
)
    ensures
        advances(s, spec_item_call(constants, s, letters_only)),
        advances(s, spec_extractor(constants, s)),
        advances(s, spec_filter(constants, s)),
{
    lemma_scan_advances(s, CharClass::AlphaOrUnderscore);
    lemma_name_advances(s);
    if let Outcome::Parsed { rest, value } = spec_identifier(s, true) {
        lemma_arguments_advance(constants, rest);
    }
    if let Outcome::Parsed { rest, value } = spec_identifier(s, false) {
        lemma_arguments_advance(constants, rest);
    }
}

/// The body of a single block leaves less than it was given.
pub proof fn lemma_single_body_advances(constants: SpecConstants, s: Seq<char>)
    ensures
        keeps(s, spec_optional_extractor(constants, s)),
        advances(s, spec_spaced_filter(constants, s)),
        advances(s, spec_extractor_and_filter(constants, s)),
        advances(s, spec_single_body(constants, s)),
{
    lemma_spaced_items(constants, s);
    if let Outcome::Parsed { rest, value } = spec_optional_extractor(constants, s) {
        lemma_spaced_items(constants, rest);
    }
    if s.len() > 0 {
        let t = s.skip(1);
        lemma_spaced_items(constants, t);
        if let Outcome::Parsed { rest, value } = spec_optional_extractor(constants, t) {
            lemma_spaced_items(constants, rest);
        }
    }
}

/// The extractor of a block leaves no more than it was given, and its
/// filter less.
pub proof fn lemma_spaced_items(constants: SpecConstants, s: Seq<char>)
    ensures
        keeps(s, spec_optional_extractor(constants, s)),
        advances(s, spec_spaced_filter(constants, s)),
{
    let t = spec_multispace0(s);
    lemma_scan_advances(s, CharClass::Space);
    lemma_item_call_advances(constants, t, true);
    lemma_item_call_advances(constants, t, false);
    if let Outcome::Parsed { rest, value } = spec_extractor(constants, t) {
        lemma_scan_advances(rest, CharClass::Space);
    }
    if let Outcome::Parsed { rest, value } = spec_filter(constants, t) {
        lemma_scan_advances(rest, CharClass::Space);
    }
}

/// What `closed` leaves is shorter than what it was given.
pub proof fn lemma_closed_advances<T>(s: Seq<char>, o: Outcome<T>)
    requires
        keeps(s, o),
    ensures
        advances(s, closed(o)),
{
    if let Outcome::Parsed { rest, value } = o {
        lemma_scan_advances(rest, CharClass::Space);
    }
}

/// A block leaves less than it was given.
pub proof fn lemma_block_advances(constants: SpecConstants, s: Seq<char>)
    ensures
        advances(s, spec_block(constants, s)),
    decreases s.len(), 2nat,
{
    lemma_single_body_advances(constants, s);
    lemma_not_advances(constants, s);
    lemma_pair_advances(constants, s, true);
    lemma_pair_advances(constants, s, false);
    lemma_closed_advances(s, spec_not_body(constants, s));
    lemma_closed_advances(s, spec_pair(constants, s, true));
    lemma_closed_advances(s, spec_pair(constants, s, false));
    lemma_closed_advances(s, spec_single_body(constants, s));
}

/// `not` with its slot leaves less than it was given.
pub proof fn lemma_not_advances(constants: SpecConstants, s: Seq<char>)
    ensures
        advances(s, spec_not_body(constants, s)),
    decreases s.len(), 1nat,
{
    lemma_keyword_advances(s, "not");
    if let Outcome::Parsed { rest, value } = spec_keyword(s, "not") {
        let t = spec_multispace0(rest);
        lemma_scan_advances(rest, CharClass::Space);
        if t.len() > 0 {
            lemma_not_slot_advances(constants, t.skip(1), s.len());
        }
    }
}

/// The slot of `not` leaves less than it was given.
pub proof fn lemma_not_slot_advances(constants: SpecConstants, s: Seq<char>, limit: nat)
    requires
        s.len() < limit,
    ensures
        advances(s, spec_not_slot(constants, s, limit)),
    decreases limit, 0nat,
{
    lemma_scan_advances(s, CharClass::Space);
    lemma_block_advances(constants, spec_multispace0(s));
    lemma_single_body_advances(constants, s);
}

/// `or` and `and` with their slots leave less than they were given.
pub proof fn lemma_pair_advances(constants: SpecConstants, s: Seq<char>, any: bool)
    ensures
        advances(s, spec_pair(constants, s, any)),
    decreases s.len(), 1nat,
{
    let word = if any {
        "or"
    } else {
        "and"
    };
    lemma_keyword_advances(s, word);
    if let Outcome::Parsed { rest, value } = spec_keyword(s, word) {
        let t = spec_multispace0(rest);
        lemma_scan_advances(rest, CharClass::Space);
        lemma_pair_body_advances(constants, t, any, s.len());
    }
}

/// The slots of `or` and `and` leave less than they were given.
pub proof fn lemma_pair_body_advances(
    constants: SpecConstants,
    s: Seq<char>,
    any: bool,
    limit: nat,
)
    requires
        s.len() < limit,
    ensures
        advances(s, spec_pair_body(constants, s, any, limit)),
    decreases limit, 0nat,
{
    if s.len() > 0 {
        let first = spec_multispace0(s.skip(1));
        lemma_scan_advances(s.skip(1), CharClass::Space);
        lemma_block_advances(constants, first);
        if let Outcome::Parsed { rest, value } = spec_block(constants, first) {
            let t = spec_multispace0(rest);
            lemma_scan_advances(rest, CharClass::Space);
            if t.len() > 0 {
                let second = spec_multispace0(t.skip(1));
                lemma_scan_advances(t.skip(1), CharClass::Space);
                lemma_block_advances(constants, second);
            }
        }
    }
}

/// The limit of a slot never decides: every slot is shorter than the text
/// that its keyword started, so that the slots of `or`, `and` and `not` are
/// read alike under every limit that is longer than their text.
pub proof fn law_limit_never_decides(
    constants: SpecConstants,
    s: Seq<char>,
    any: bool,
    limit: nat,
    other: nat,
)
    requires
        s.len() < limit,
        s.len() < other,
    ensures
        spec_pair_body(constants, s, any, limit) == spec_pair_body(constants, s, any, other),
        spec_not_slot(constants, s, limit) == spec_not_slot(constants, s, other),
{
    lemma_scan_advances(s, CharClass::Space);
    if s.len() > 0 {
        let first = spec_multispace0(s.skip(1));
        lemma_scan_advances(s.skip(1), CharClass::Space);
        lemma_block_advances(constants, first);
        if let Outcome::Parsed { rest, value } = spec_block(constants, first) {
            let t = spec_multispace0(rest);
            lemma_scan_advances(rest, CharClass::Space);
            if t.len() > 0 {
                lemma_scan_advances(t.skip(1), CharClass::Space);
            }
        }
    }
}

/// What `ended` leaves is shorter than what it was given.
pub proof fn lemma_ended_advances<T>(s: Seq<char>, o: Outcome<T>)
    requires
        keeps(s, o),
    ensures
        advances(s, ended(o)),
{
}

/// A predicate leaves less than it was given, and so does a guard.
pub proof fn lemma_match_advances(constants: SpecConstants, tick: u16, s: Seq<char>)
    ensures
        advances(s, spec_match_statement(constants, tick, s)),
        advances(s, spec_guard(constants, tick, s)),
{
    lemma_match_forms_advance(constants, tick, s);
    lemma_keyword_advances(s, "if");
    if let Outcome::Parsed { rest, value } = spec_keyword(s, "if") {
        lemma_scan_advances(rest, CharClass::Space);
        if let Outcome::Parsed { rest, value } = spec_multispace1(rest) {
            lemma_match_forms_advance(constants, tick, rest);
        }
    }
}

/// Each form of a predicate leaves less than it was given.
pub proof fn lemma_match_forms_advance(
    constants: SpecConstants,
    tick: u16,
    s: Seq<char>,
)
    ensures
        advances(s, spec_match_statement(constants, tick, s)),
{
    lemma_keyword_advances(s, "match");
    if let Outcome::Parsed { rest, value } = spec_keyword(s, "match") {
        lemma_scan_advances(rest, CharClass::Space);
        if let Outcome::Parsed { rest, value } = spec_multispace1(rest) {
            let body = rest;
            lemma_block_advances(constants, body);
            lemma_keyword_advances(body, "tick");
            lemma_keyword_advances(body, "event");
            lemma_keyword_advances(body, "producer");
            if let Outcome::Parsed { rest, value } = spec_keyword(body, "event") {
                lemma_scan_advances(rest, CharClass::Space);
                if let Outcome::Parsed { rest, value } = spec_multispace1(rest) {
                    lemma_argument_advances(constants, rest);
                }
            }
            if let Outcome::Parsed { rest, value } = spec_keyword(body, "producer") {
                lemma_scan_advances(rest, CharClass::Space);
                if let Outcome::Parsed { rest, value } = spec_multispace1(rest) {
                    lemma_argument_advances(constants, rest);
                }
            }
        }
    }
    assert(advances(s, spec_block_match(constants, s)));
    assert(advances(s, spec_tick(s, tick)));
    assert(advances(s, spec_equality(constants, s, "event", Extractor::EventCodeExtractor)));
    assert(advances(
        s,
        spec_equality(constants, s, "producer", Extractor::EventProducerAddressExtractor),
    ));
}

/// An action leaves less than it was given.
pub proof fn lemma_fire_advances(constants: SpecConstants, tick: u16, s: Seq<char>)
    ensures
        advances(s, spec_fire_base(constants, s)),
        advances(s, spec_fire_statement(constants, tick, s)),
{
    lemma_keyword_advances(s, "fire");
    if let Outcome::Parsed { rest, value } = spec_keyword(s, "fire") {
        lemma_scan_advances(rest, CharClass::Space);
        if let Outcome::Parsed { rest, value } = spec_multispace1(rest) {
            if rest.len() > 0 {
                let body = rest.skip(1);
                lemma_spaced_items(constants, body);
                if let Outcome::Parsed { rest, value } = spec_optional_extractor(constants, body) {
                    let t = spec_multispace0(rest);
                    lemma_scan_advances(rest, CharClass::Space);
                    lemma_producer_advances(constants, t);
                    if let Outcome::Parsed { rest, value } = spec_producer(constants, t) {
                        lemma_scan_advances(rest, CharClass::Space);
                    }
                }
            }
        }
        assert(keeps(rest, spec_fire_content(constants, rest)));
        lemma_closed_advances(rest, spec_fire_content(constants, rest).cut());
    }
    if let Outcome::Parsed { rest, value } = spec_fire_base(constants, s) {
        lemma_scan_advances(rest, CharClass::Space);
        lemma_match_advances(constants, tick, spec_multispace0(rest));
    }
}

/// The call of a producer leaves less than it was given.
pub proof fn lemma_producer_advances(constants: SpecConstants, s: Seq<char>)
    ensures
        advances(s, spec_producer(constants, s)),
{
    lemma_item_call_advances(constants, s, false);
}

/// The predicates of a rule leave no more than they were given.
pub proof fn lemma_more_matchers_keep(
    constants: SpecConstants,
    tick: u16,
    s: Seq<char>,
    so_far: SpecMatcher,
)
    ensures
        keeps(s, spec_more_matchers(constants, tick, s, so_far)),
    decreases s.len(),
{
    lemma_scan_advances(s, CharClass::Space);
    lemma_match_advances(constants, tick, spec_multispace0(s));
    if let Outcome::Parsed { rest, value } = spec_match_statement(
        constants,
        tick,
        spec_multispace0(s),
    ) {
        lemma_more_matchers_keep(constants, tick, rest, both(so_far, value));
    }
}

/// The actions of a rule leave no more than they were given.
pub proof fn lemma_creators_keep(constants: SpecConstants, tick: u16, s: Seq<char>)
    ensures
        keeps(s, spec_creators(constants, tick, s)),
    decreases s.len(),
{
    lemma_scan_advances(s, CharClass::Space);
    lemma_fire_advances(constants, tick, spec_multispace0(s));
    if let Outcome::Parsed { rest, value } = spec_fire_statement(
        constants,
        tick,
        spec_multispace0(s),
    ) {
        lemma_creators_keep(constants, tick, rest);
    }
}

/// A rule in braces leaves less than it was given.
pub proof fn lemma_do_advances(constants: SpecConstants, tick: u16, s: Seq<char>)
    ensures
        advances(s, spec_do_statement(constants, tick, s)),
{
    lemma_keyword_advances(s, "do");
    if let Outcome::Parsed { rest, value } = spec_keyword(s, "do") {
        let t = spec_multispace0(rest);
        lemma_scan_advances(rest, CharClass::Space);
        if t.len() > 0 {
            let body = t.skip(1);
            lemma_scan_advances(body, CharClass::Space);
            lemma_match_advances(constants, tick, spec_multispace0(body));
            if let Outcome::Parsed { rest, value } = spec_match_statement(
                constants,
                tick,
                spec_multispace0(body),
            ) {
                lemma_more_matchers_keep(constants, tick, rest, value);
            }
            if let Outcome::Parsed { rest, value } = spec_matchers(constants, tick, body) {
                lemma_creators_keep(constants, tick, rest);
            }
        }
        assert(keeps(rest, spec_do_content(constants, tick, rest)));
        lemma_closed_advances(rest, spec_do_content(constants, tick, rest).cut());
    }
}

/// Blank space, a keyword, blank space and a value leave less than they
/// were given.
pub proof fn lemma_clause_advances(
    constants: SpecConstants,
    s: Seq<char>,
    word: &'static str,
)
    ensures
        advances(s, spec_clause(constants, s, word)),
{
    lemma_scan_advances(s, CharClass::Space);
    if let Outcome::Parsed { rest, value } = spec_multispace1(s) {
        lemma_keyword_advances(rest, word);
        if let Outcome::Parsed { rest, value } = spec_keyword(rest, word) {
            lemma_scan_advances(rest, CharClass::Space);
            if let Outcome::Parsed { rest, value } = spec_multispace1(rest) {
                lemma_argument_advances(constants, rest);
            }
        }
    }
}

/// What ends a rule that is written in one statement leaves less than it
/// was given.
pub proof fn lemma_rule_advances(
    constants: SpecConstants,
    tick: u16,
    s: Seq<char>,
    base: Outcome<SpecEventProcessor>,
    guard_first: bool,
)
    requires
        keeps(s, base),
    ensures
        advances(s, spec_rule(constants, tick, s, base, guard_first)),
{
    if let Outcome::Parsed { rest, value } = base {
        lemma_scan_advances(rest, CharClass::Space);
        if let Outcome::Parsed { rest, value } = spec_multispace1(rest) {
            lemma_match_advances(constants, tick, rest);
        }
    }
}

/// `send` and `set` leave less than they were given.
pub proof fn lemma_send_and_set_advance(
    constants: SpecConstants,
    variables: SpecVariables,
    tick: u16,
    s: Seq<char>,
)
    ensures
        advances(s, spec_send_statement(constants, tick, s)),
        advances(s, spec_set_statement(constants, variables, tick, s)),
{
    lemma_keyword_advances(s, "send");
    if let Outcome::Parsed { rest, value } = spec_keyword(s, "send") {
        lemma_scan_advances(rest, CharClass::Space);
        if let Outcome::Parsed { rest, value } = spec_multispace1(rest) {
            lemma_argument_advances(constants, rest);
            if let Outcome::Parsed { rest, value } = spec_literal_or_constant(constants, rest) {
                lemma_clause_advances(constants, rest, "from");
                if let Outcome::Parsed { rest, value } = spec_clause(constants, rest, "from") {
                    lemma_clause_advances(constants, rest, "to");
                }
            }
        }
    }
    lemma_rule_advances(constants, tick, s, spec_send_base(constants, s), false);
    lemma_keyword_advances(s, "set");
    if let Outcome::Parsed { rest, value } = spec_keyword(s, "set") {
        lemma_scan_advances(rest, CharClass::Space);
        if let Outcome::Parsed { rest, value } = spec_multispace1(rest) {
            lemma_name_advances(rest);
            if let Outcome::Parsed { rest, value } = spec_state_variable(variables, rest) {
                lemma_clause_advances(constants, rest, "to");
                if let Outcome::Parsed { rest, value } = spec_clause(constants, rest, "to") {
                    lemma_clause_advances(constants, rest, "on");
                    if let Outcome::Parsed { rest, value } = spec_clause(constants, rest, "on") {
                        lemma_clause_advances(constants, rest, "from");
                    }
                }
            }
        }
    }
    lemma_rule_advances(constants, tick, s, spec_set_base(constants, variables, s), true);
}

/// A declaration leaves less than it was given.
pub proof fn lemma_declarations_advance(s: Seq<char>)
    ensures
        advances(s, spec_let_statement(s)),
        advances(s, spec_const_statement(s)),
{
    lemma_keyword_advances(s, "let");
    lemma_keyword_advances(s, "const");
    if let Outcome::Parsed { rest, value } = spec_keyword(s, "let") {
        lemma_binding_advances(rest, true);
    }
    if let Outcome::Parsed { rest, value } = spec_keyword(s, "const") {
        lemma_binding_advances(rest, false);
    }
}

/// What follows the keyword of a declaration leaves less than it was given.
pub proof fn lemma_binding_advances(s: Seq<char>, strict: bool)
    ensures
        advances(s, spec_binding(s, strict)),
{
    lemma_scan_advances(s, CharClass::Space);
    if let Outcome::Parsed { rest, value } = spec_multispace1(s) {
        lemma_name_advances(rest);
        lemma_scan_advances(rest, CharClass::AlphaOrUnderscore);
        if let Outcome::Parsed { rest, value } = spec_declared_name(rest, strict) {
            let t = spec_multispace0(rest);
            lemma_scan_advances(rest, CharClass::Space);
            if t.len() > 0 {
                let u = spec_multispace0(t.skip(1));
                lemma_scan_advances(t.skip(1), CharClass::Space);
                lemma_literal_advances(u);
            }
        }
    }
}

/// The declaration of a peripheral leaves less than it was given.
pub proof fn lemma_peripheral_advances(constants: SpecConstants, s: Seq<char>)
    ensures
        advances(s, spec_peripheral_base(s)),
        advances(s, spec_peripheral_statement(constants, s)),
{
    lemma_peripheral_base_advances(s);
    lemma_keyword_advances(s, "pub");
    if let Outcome::Parsed { rest, value } = spec_keyword(s, "pub") {
        let t = spec_multispace0(rest);
        lemma_scan_advances(rest, CharClass::Space);
        lemma_arguments_advance(constants, t);
        if let Outcome::Parsed { rest, value } = spec_arguments(constants, t) {
            lemma_scan_advances(rest, CharClass::Space);
            if let Outcome::Parsed { rest, value } = spec_multispace1(rest) {
                lemma_peripheral_base_advances(rest);
            }
        }
    }
}

/// The declaration of a peripheral without gateways leaves less than it was
/// given.
pub proof fn lemma_peripheral_base_advances(s: Seq<char>)
    ensures
        advances(s, spec_peripheral_base(s)),
{
    lemma_keyword_advances(s, "peripheral");
    if let Outcome::Parsed { rest, value } = spec_keyword(s, "peripheral") {
        lemma_scan_advances(rest, CharClass::Space);
        if let Outcome::Parsed { rest, value } = spec_multispace1(rest) {
            lemma_literal_advances(rest);
            if let Outcome::Parsed { rest, value } = spec_literal(rest) {
                lemma_scan_advances(rest, CharClass::Space);
                if let Outcome::Parsed { rest, value } = spec_multispace1(rest) {
                    lemma_keyword_advances(rest, "bcm");
                    lemma_keyword_advances(rest, "relay");
                    if let Outcome::Parsed { rest, value } = spec_family(rest) {
                        lemma_scan_advances(rest, CharClass::Space);
                        if let Outcome::Parsed { rest, value } = spec_multispace1(rest) {
                            lemma_keyword_advances(rest, "single");
                            lemma_keyword_advances(rest, "rgb");
                            lemma_keyword_advances(rest, "rgbw");
                            lemma_keyword_advances(rest, "double_exclusive");
                            if let Outcome::Parsed { rest, value } = spec_shape(rest) {
                                lemma_arguments_advance(Map::empty(), rest);
                            }
                        }
                    }
                }
            }
        }
        assert(keeps(rest, spec_peripheral_header(rest)));
    }
}

/// Every statement takes something from the text: a statement leaves less
/// than it was given.
pub proof fn law_statement_advances(
    constants: SpecConstants,
    variables: SpecVariables,
    tick: u16,
    s: Seq<char>,
)
    ensures
        advances(s, spec_statement(constants, variables, tick, s)),
{
    reveal_with_fuel(first_statement, 7);
    lemma_peripheral_advances(constants, s);
    lemma_declarations_advance(s);
    lemma_send_and_set_advance(constants, variables, tick, s);
    lemma_do_advances(constants, tick, s);
}

} // verus!
