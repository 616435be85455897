//! What a step reads does not depend on what follows it: a step that takes
//! from a text takes the same from the text with more after it.
use crate::error::Outcome;
use crate::extractor::spec_extractor;
use crate::filter::spec_filter;
use crate::item::{spec_identifier, spec_item_call};
use crate::keyword::spec_keyword;
use crate::literal::{
    index_of, spec_boolean, spec_literal, spec_literal_or_constant, spec_number, spec_string,
};
use crate::parser::{
    spec_argument, spec_argument_list, spec_arguments, spec_more_arguments, spec_multispace0,
    spec_name, spec_scan0, spec_scan1,
};
use crate::progress::{
    lemma_argument_advances, lemma_block_advances, lemma_keyword_advances,
    lemma_more_arguments_keep, lemma_single_body_advances,
};
use crate::statement::match_statement::{
    closed, spec_block, spec_extractor_and_filter, spec_not_body, spec_not_slot,
    spec_optional_extractor, spec_pair, spec_pair_body, spec_single_body, spec_spaced_filter,
};
use crate::symbol::{
    spec_symbol, CLOSE_BRACE, CLOSE_PARENTHESIS, COMMA, DOUBLE_QUOTE, HASHTAG, OPEN_BRACE,
    OPEN_PARENTHESIS, SEMICOLON, TILDE,
};
use crate::table::SpecConstants;
use crate::text::{lemma_run_length, run_length, CharClass};
use vstd::prelude::*;

verus! {

/// Whether `after` is `before` with `x` behind the text: the same value with
/// `x` behind what was left, or a failure of the same severity.
pub open spec fn carried<T>(before: Outcome<T>, after: Outcome<T>, x: Seq<char>) -> bool {
    match before {
        Outcome::Parsed { rest, value } => after == Outcome::Parsed { rest: rest + x, value },
        Outcome::Recoverable(_) => after is Recoverable,
        Outcome::Fatal(_) => after is Fatal,
    }
}

/// The front of a text is the front of the text with more after it.
pub proof fn lemma_front(t: Seq<char>, x: Seq<char>, n: int)
    requires
        0 <= n <= t.len(),
    ensures
        (t + x).take(n) == t.take(n),
        (t + x).skip(n) == t.skip(n) + x,
        forall|i: int| 0 <= i < t.len() ==> (t + x)[i] == t[i],
{
    assert((t + x).take(n) =~= t.take(n));
    assert((t + x).skip(n) =~= t.skip(n) + x);
}

/// A run that ends inside a text is the run of the text with more after it.
pub proof fn lemma_run_local(t: Seq<char>, x: Seq<char>, class: CharClass)
    requires
        run_length(t, class) < t.len(),
    ensures
        run_length(t + x, class) == run_length(t, class),
    decreases t.len(),
{
    lemma_front(t, x, 1);
    if class.contains(t[0]) {
        lemma_run_local(t.skip(1), x, class);
    }
}

/// A character that is found in a text is found at the same place in the
/// text with more after it.
pub proof fn lemma_index_local(t: Seq<char>, x: Seq<char>, c: char)
    requires
        index_of(t, c) < t.len(),
    ensures
        index_of(t + x, c) == index_of(t, c),
    decreases t.len(),
{
    lemma_front(t, x, 1);
    if t[0] != c {
        lemma_index_local(t.skip(1), x, c);
    }
}

/// A character outside a class bounds the run of the class.
pub proof fn lemma_run_bound(t: Seq<char>, class: CharClass, i: int)
    requires
        0 <= i < t.len(),
        !class.contains(t[i]),
    ensures
        run_length(t, class) <= i,
{
    lemma_run_length(t, class);
}

/// Runs that end inside a text are taken alike from the text with more
/// after it.
pub proof fn lemma_scan_local(t: Seq<char>, x: Seq<char>, class: CharClass)
    requires
        run_length(t, class) < t.len(),
    ensures
        carried(spec_scan0(t, class), spec_scan0(t + x, class), x),
        carried(spec_scan1(t, class), spec_scan1(t + x, class), x),
        class == CharClass::Space ==> spec_multispace0(t + x) == spec_multispace0(t) + x,
{
    lemma_run_local(t, x, class);
    lemma_front(t, x, run_length(t, class) as int);
}

/// A keyword whose word ends inside a text is read alike from the text with
/// more after it.
pub proof fn lemma_keyword_local(t: Seq<char>, x: Seq<char>, word: &'static str)
    requires
        run_length(t, CharClass::AlphaOrUnderscore) < t.len(),
    ensures
        carried(spec_keyword(t, word), spec_keyword(t + x, word), x),
{
    lemma_run_local(t, x, CharClass::AlphaOrUnderscore);
    lemma_front(t, x, run_length(t, CharClass::AlphaOrUnderscore) as int);
}

/// A symbol is read alike from a text that is not empty and from the text
/// with more after it.
pub proof fn lemma_symbol_local(t: Seq<char>, x: Seq<char>, c: char)
    requires
        t.len() > 0,
    ensures
        carried(spec_symbol(t, c), spec_symbol(t + x, c), x),
{
    lemma_front(t, x, 1);
}

/// A name that ends inside a text is read alike from the text with more
/// after it.
pub proof fn lemma_name_local(t: Seq<char>, x: Seq<char>)
    requires
        run_length(t, CharClass::Word) < t.len(),
    ensures
        carried(spec_name(t), spec_name(t + x), x),
{
    lemma_run_local(t, x, CharClass::Word);
    lemma_front(t, x, run_length(t, CharClass::Word) as int);
}

/// The boolean keywords are read alike where the word ends inside the text.
pub proof fn lemma_boolean_local(t: Seq<char>, x: Seq<char>)
    requires
        run_length(t, CharClass::AlphaOrUnderscore) < t.len(),
    ensures
        carried(spec_boolean(t), spec_boolean(t + x), x),
{
    lemma_keyword_local(t, x, "false");
    lemma_keyword_local(t, x, "true");
}

/// The digits of a number and its suffix are read alike where something
/// follows the suffix.
pub proof fn lemma_number_local(t: Seq<char>, x: Seq<char>, class: CharClass)
    requires
        spec_number(t, class) is Parsed,
        spec_number(t, class)->Parsed_rest.len() > 0,
    ensures
        carried(spec_number(t, class), spec_number(t + x, class), x),
{
    lemma_run_length(t, class);
    let digits = spec_scan1(t, class)->Parsed_rest;
    lemma_scan_local(t, x, class);
    lemma_symbol_local(digits, x, TILDE);
    let suffix = digits.skip(1);
    lemma_run_length(suffix, CharClass::AlphaNumeric);
    lemma_scan_local(suffix, x, CharClass::AlphaNumeric);
}

/// A text that writes a number in decimal digits and none in hexadecimal
/// digits writes none in hexadecimal digits with more after it.
pub proof fn lemma_hexadecimal_stays_failed(t: Seq<char>, x: Seq<char>)
    requires
        spec_number(t, CharClass::Hex) is Recoverable,
        spec_number(t, CharClass::Decimal) is Parsed,
    ensures
        spec_number(t + x, CharClass::Hex) is Recoverable,
{
    lemma_run_length(t, CharClass::Decimal);
    lemma_run_length(t, CharClass::Hex);
    let d = run_length(t, CharClass::Decimal) as int;
    let after = t.skip(d);
    assert(after[0] == t[d]);
    lemma_run_length(after.skip(1), CharClass::AlphaNumeric);
    lemma_run_bound(t, CharClass::Hex, d);
    let h = run_length(t, CharClass::Hex) as int;
    lemma_scan_local(t, x, CharClass::Hex);
    if h > 0 {
        let digits = t.skip(h);
        lemma_symbol_local(digits, x, TILDE);
        if spec_symbol(digits, TILDE) is Parsed {
            let suffix = digits.skip(1);
            assert(suffix.len() > 0);
            lemma_scan_local(suffix, x, CharClass::AlphaNumeric);
        }
    }
}

/// A literal is read alike where something follows it.
pub proof fn lemma_literal_local(t: Seq<char>, x: Seq<char>)
    requires
        spec_literal(t) is Parsed,
        spec_literal(t)->Parsed_rest.len() > 0,
    ensures
        carried(spec_literal(t), spec_literal(t + x), x),
{
    lemma_run_length(t, CharClass::AlphaOrUnderscore);
    lemma_run_length(t, CharClass::Hex);
    lemma_run_length(t, CharClass::Decimal);
    lemma_front(t, x, 1);
    if spec_boolean(t) is Parsed {
        lemma_boolean_local(t, x);
    } else if spec_number(t, CharClass::Hex) is Parsed {
        let h = run_length(t, CharClass::Hex) as int;
        assert(t.skip(h)[0] == t[h]);
        lemma_run_bound(t, CharClass::AlphaOrUnderscore, h);
        lemma_boolean_local(t, x);
        lemma_number_local(t, x, CharClass::Hex);
    } else if spec_number(t, CharClass::Decimal) is Parsed {
        let d = run_length(t, CharClass::Decimal) as int;
        assert(t.skip(d)[0] == t[d]);
        lemma_run_bound(t, CharClass::AlphaOrUnderscore, d);
        lemma_boolean_local(t, x);
        lemma_hexadecimal_stays_failed(t, x);
        lemma_number_local(t, x, CharClass::Decimal);
    } else {
        lemma_run_bound(t, CharClass::AlphaOrUnderscore, 0);
        lemma_run_bound(t, CharClass::Hex, 0);
        lemma_run_bound(t, CharClass::Decimal, 0);
        lemma_boolean_local(t, x);
        lemma_scan_local(t, x, CharClass::Hex);
        lemma_scan_local(t, x, CharClass::Decimal);
        lemma_symbol_local(t, x, DOUBLE_QUOTE);
        lemma_symbol_local(t, x, HASHTAG);
        let inner = t.skip(1);
        if spec_string(t) is Parsed {
            let n = index_of(inner, DOUBLE_QUOTE) as int;
            lemma_index_local(inner, x, DOUBLE_QUOTE);
            lemma_front(inner, x, n);
            lemma_front(inner, x, n + 1);
        } else {
            lemma_run_length(inner, CharClass::Hex);
            lemma_scan_local(inner, x, CharClass::Hex);
        }
    }
}

/// A value, the name of a constant or a literal, is read alike where what
/// follows it is no character of a name.
pub proof fn lemma_value_local(constants: SpecConstants, t: Seq<char>, x: Seq<char>)
    requires
        spec_literal_or_constant(constants, t) is Parsed,
        spec_literal_or_constant(constants, t)->Parsed_rest.len() > 0,
        !CharClass::Word.contains(spec_literal_or_constant(constants, t)->Parsed_rest[0]),
    ensures
        carried(
            spec_literal_or_constant(constants, t),
            spec_literal_or_constant(constants, t + x),
            x,
        ),
{
    lemma_run_length(t, CharClass::Word);
    lemma_run_length(t, CharClass::AlphaOrUnderscore);
    lemma_run_length(t, CharClass::Hex);
    lemma_run_length(t, CharClass::Decimal);
    lemma_front(t, x, 1);
    let n = run_length(t, CharClass::Word) as int;
    if n == t.len() {
        // A text of nothing but the characters of a name is no literal
        // before such a character.
        let a = run_length(t, CharClass::AlphaOrUnderscore) as int;
        let h = run_length(t, CharClass::Hex) as int;
        let d = run_length(t, CharClass::Decimal) as int;
        if a < t.len() {
            assert(t.skip(a)[0] == t[a]);
        }
        if h < t.len() {
            assert(t.skip(h)[0] == t[h]);
        }
        if d < t.len() {
            assert(t.skip(d)[0] == t[d]);
        }
        assert(false);
    }
    lemma_name_local(t, x);
    if !(spec_name(t) is Parsed && constants.contains_key(spec_name(t)->Parsed_value)) {
        lemma_literal_local(t, x);
    }
}

/// An argument is read alike where a comma or a closing parenthesis follows
/// it.
pub proof fn lemma_argument_local(constants: SpecConstants, s: Seq<char>, x: Seq<char>)
    requires
        spec_argument(constants, s) is Parsed,
        spec_argument(constants, s)->Parsed_rest.len() > 0,
        spec_argument(constants, s)->Parsed_rest[0] == COMMA || spec_argument(
            constants,
            s,
        )->Parsed_rest[0] == CLOSE_PARENTHESIS,
    ensures
        carried(spec_argument(constants, s), spec_argument(constants, s + x), x),
{
    lemma_run_length(s, CharClass::Space);
    let t = spec_multispace0(s);
    let after = spec_literal_or_constant(constants, t)->Parsed_rest;
    lemma_run_length(after, CharClass::Space);
    lemma_argument_advances(constants, t);
    lemma_scan_local(s, x, CharClass::Space);
    lemma_scan_local(after, x, CharClass::Space);
    assert(after.skip(run_length(after, CharClass::Space) as int)[0] == after[run_length(
        after,
        CharClass::Space,
    ) as int]);
    lemma_value_local(constants, t, x);
}

/// No argument stands before a closing parenthesis.
pub proof fn lemma_no_argument(constants: SpecConstants, s: Seq<char>)
    requires
        s.len() > 0,
        s[0] == CLOSE_PARENTHESIS,
    ensures
        spec_argument(constants, s) is Recoverable,
{
    lemma_run_length(s, CharClass::Space);
    lemma_run_length(s, CharClass::AlphaOrUnderscore);
    lemma_run_length(s, CharClass::Hex);
    lemma_run_length(s, CharClass::Decimal);
    assert(spec_multispace0(s) =~= s);
}

/// The arguments after the first are read alike where a closing
/// parenthesis follows them.
pub proof fn lemma_more_arguments_local(constants: SpecConstants, s: Seq<char>, x: Seq<char>)
    requires
        spec_more_arguments(constants, s) is Parsed,
        spec_more_arguments(constants, s)->Parsed_rest.len() > 0,
        spec_more_arguments(constants, s)->Parsed_rest[0] == CLOSE_PARENTHESIS,
    ensures
        carried(spec_more_arguments(constants, s), spec_more_arguments(constants, s + x), x),
    decreases s.len(),
{
    lemma_symbol_local(s, x, COMMA);
    if spec_symbol(s, COMMA) is Parsed {
        let t = s.skip(1);
        let rest = spec_argument(constants, t)->Parsed_rest;
        lemma_argument_advances(constants, t);
        lemma_more_arguments_keep(constants, rest);
        lemma_argument_advances(constants, t + x);
        lemma_argument_local(constants, t, x);
        lemma_more_arguments_local(constants, rest, x);
    }
}

/// The arguments of a call are read alike, whatever follows the closing
/// parenthesis.
pub proof fn lemma_arguments_local(constants: SpecConstants, s: Seq<char>, x: Seq<char>)
    requires
        spec_arguments(constants, s) is Parsed,
    ensures
        carried(spec_arguments(constants, s), spec_arguments(constants, s + x), x),
{
    lemma_symbol_local(s, x, OPEN_PARENTHESIS);
    let inner = s.skip(1);
    let t = spec_multispace0(inner);
    lemma_run_length(inner, CharClass::Space);
    let list = spec_argument_list(constants, t);
    lemma_argument_advances(constants, t);
    if let Outcome::Parsed { rest, value } = spec_argument(constants, t) {
        lemma_more_arguments_keep(constants, rest);
    }
    lemma_scan_local(inner, x, CharClass::Space);
    if spec_argument(constants, t) is Parsed {
        let rest = spec_argument(constants, t)->Parsed_rest;
        lemma_argument_local(constants, t, x);
        lemma_more_arguments_local(constants, rest, x);
    } else {
        lemma_front(t, x, 1);
        lemma_no_argument(constants, t + x);
    }
    lemma_symbol_local(list->Parsed_rest, x, CLOSE_PARENTHESIS);
}

/// The call of an item is read alike, whatever follows its `;`: as a call,
/// as an extractor and as a filter.
pub proof fn lemma_item_call_local(
    constants: SpecConstants,
    s: Seq<char>,
    x: Seq<char>,
    letters_only: bool,
)
    requires
        spec_item_call(constants, s, letters_only) is Parsed,
    ensures
        carried(
            spec_item_call(constants, s, letters_only),
            spec_item_call(constants, s + x, letters_only),
            x,
        ),
        letters_only ==> carried(spec_extractor(constants, s), spec_extractor(constants, s + x), x),
        !letters_only ==> carried(spec_filter(constants, s), spec_filter(constants, s + x), x),
{
    lemma_run_length(s, CharClass::AlphaOrUnderscore);
    lemma_run_length(s, CharClass::Word);
    let after = spec_identifier(s, letters_only)->Parsed_rest;
    if letters_only {
        lemma_scan_local(s, x, CharClass::AlphaOrUnderscore);
    } else {
        lemma_name_local(s, x);
    }
    lemma_arguments_local(constants, after, x);
    lemma_symbol_local(spec_arguments(constants, after)->Parsed_rest, x, SEMICOLON);
}

/// The call of a filter is no call of an extractor, with more after it as
/// without.
pub proof fn lemma_filter_is_no_extractor(constants: SpecConstants, s: Seq<char>, x: Seq<char>)
    requires
        spec_filter(constants, s) is Parsed,
        spec_extractor(constants, s) is Recoverable,
    ensures
        spec_extractor(constants, s + x) is Recoverable,
{
    lemma_run_length(s, CharClass::AlphaOrUnderscore);
    lemma_run_length(s, CharClass::Word);
    let a = run_length(s, CharClass::AlphaOrUnderscore) as int;
    let n = run_length(s, CharClass::Word) as int;
    assert(s.skip(n)[0] == s[n]);
    if n < a {
        assert(CharClass::Word.contains(s[n]));
    }
    lemma_scan_local(s, x, CharClass::AlphaOrUnderscore);
    lemma_front(s, x, a);
    if a == n {
        assert(spec_item_call(constants, s, true) == spec_item_call(constants, s, false));
        lemma_item_call_local(constants, s, x, true);
    } else {
        assert(s.skip(a)[0] == s[a]);
        assert(CharClass::Word.contains(s[a]));
        lemma_symbol_local(s.skip(a), x, OPEN_PARENTHESIS);
    }
}

/// An extractor, which may be missing, and a filter are read alike where
/// something follows them.
pub proof fn lemma_extractor_and_filter_local(constants: SpecConstants, s: Seq<char>, x: Seq<char>)
    requires
        spec_extractor_and_filter(constants, s) is Parsed,
        spec_extractor_and_filter(constants, s)->Parsed_rest.len() > 0,
    ensures
        carried(
            spec_extractor_and_filter(constants, s),
            spec_extractor_and_filter(constants, s + x),
            x,
        ),
{
    let t = spec_multispace0(s);
    lemma_run_length(s, CharClass::Space);
    let middle = spec_optional_extractor(constants, s)->Parsed_rest;
    lemma_spaced_filter_local(constants, middle, x);
    lemma_scan_local(s, x, CharClass::Space);
    if spec_extractor(constants, t) is Parsed {
        let after = spec_extractor(constants, t)->Parsed_rest;
        lemma_run_length(after, CharClass::Space);
        lemma_item_call_local(constants, t, x, true);
        lemma_scan_local(after, x, CharClass::Space);
    } else {
        lemma_filter_is_no_extractor(constants, t, x);
    }
}

/// The call of a filter between blank space is read alike where something
/// follows it.
pub proof fn lemma_spaced_filter_local(constants: SpecConstants, s: Seq<char>, x: Seq<char>)
    requires
        spec_spaced_filter(constants, s) is Parsed,
        spec_spaced_filter(constants, s)->Parsed_rest.len() > 0,
    ensures
        carried(spec_spaced_filter(constants, s), spec_spaced_filter(constants, s + x), x),
{
    let t = spec_multispace0(s);
    lemma_run_length(s, CharClass::Space);
    let after = spec_filter(constants, t)->Parsed_rest;
    lemma_run_length(after, CharClass::Space);
    lemma_scan_local(s, x, CharClass::Space);
    lemma_item_call_local(constants, t, x, false);
    lemma_scan_local(after, x, CharClass::Space);
}

/// The body of a single block is read alike where something follows it.
pub proof fn lemma_single_body_local(constants: SpecConstants, s: Seq<char>, x: Seq<char>)
    requires
        spec_single_body(constants, s) is Parsed,
        spec_single_body(constants, s)->Parsed_rest.len() > 0,
    ensures
        carried(spec_single_body(constants, s), spec_single_body(constants, s + x), x),
{
    lemma_symbol_local(s, x, OPEN_BRACE);
    lemma_extractor_and_filter_local(constants, s.skip(1), x);
}

/// The closing brace is read alike, whatever follows it.
pub proof fn lemma_closed_local<T>(before: Outcome<T>, after: Outcome<T>, x: Seq<char>)
    requires
        closed(before) is Parsed,
        carried(before, after, x),
    ensures
        carried(closed(before), closed(after), x),
{
    let rest = before->Parsed_rest;
    lemma_run_length(rest, CharClass::Space);
    lemma_scan_local(rest, x, CharClass::Space);
    lemma_symbol_local(spec_multispace0(rest), x, CLOSE_BRACE);
}

/// A text that starts with the call of an item and is no block is no block
/// with more after it.
pub proof fn lemma_item_is_no_block(
    constants: SpecConstants,
    s: Seq<char>,
    x: Seq<char>,
    letters_only: bool,
)
    requires
        spec_item_call(constants, s, letters_only) is Parsed,
        spec_block(constants, s) is Recoverable,
    ensures
        spec_block(constants, s + x) is Recoverable,
{
    lemma_run_length(s, CharClass::AlphaOrUnderscore);
    lemma_run_length(s, CharClass::Word);
    let a = run_length(s, CharClass::AlphaOrUnderscore) as int;
    let n = run_length(s, CharClass::Word) as int;
    if !letters_only {
        assert(s.skip(n)[0] == s[n]);
        if n < a {
            assert(CharClass::Word.contains(s[n]));
        }
    }
    assert(s.skip(a)[0] == s[a]);
    let after = s.skip(a);
    lemma_run_length(after, CharClass::Space);
    assert(spec_multispace0(after) =~= after);
    lemma_keyword_local(s, x, "not");
    lemma_keyword_local(s, x, "or");
    lemma_keyword_local(s, x, "and");
    lemma_symbol_local(s, x, OPEN_BRACE);
    assert(spec_keyword(s, "not") is Recoverable);
    assert(spec_keyword(s, "or") is Recoverable);
    assert(spec_keyword(s, "and") is Recoverable);
}

/// A block is read alike, whatever follows its closing brace.
pub proof fn lemma_block_local(constants: SpecConstants, s: Seq<char>, x: Seq<char>)
    requires
        spec_block(constants, s) is Parsed,
    ensures
        carried(spec_block(constants, s), spec_block(constants, s + x), x),
    decreases s.len(), 2nat,
{
    reveal_strlit("not");
    reveal_strlit("or");
    reveal_strlit("and");
    lemma_run_length(s, CharClass::AlphaOrUnderscore);
    let a = run_length(s, CharClass::AlphaOrUnderscore) as int;
    let word = s.take(a);
    if a < s.len() {
        lemma_keyword_local(s, x, "not");
        lemma_keyword_local(s, x, "or");
        lemma_keyword_local(s, x, "and");
    }
    lemma_symbol_local(s, x, OPEN_BRACE);
    if closed(spec_not_body(constants, s)) is Parsed {
        lemma_not_local(constants, s, x);
        lemma_closed_local(spec_not_body(constants, s), spec_not_body(constants, s + x), x);
    } else if closed(spec_pair(constants, s, true)) is Parsed {
        assert(word.len() == 2);
        lemma_pair_local(constants, s, true, x);
        lemma_closed_local(
            spec_pair(constants, s, true),
            spec_pair(constants, s + x, true),
            x,
        );
    } else if closed(spec_pair(constants, s, false)) is Parsed {
        assert(word.len() == 3 && word[0] == 'a');
        lemma_pair_local(constants, s, false, x);
        lemma_closed_local(
            spec_pair(constants, s, false),
            spec_pair(constants, s + x, false),
            x,
        );
    } else {
        let body = spec_single_body(constants, s);
        lemma_run_length(body->Parsed_rest, CharClass::Space);
        lemma_single_body_local(constants, s, x);
        lemma_closed_local(body, spec_single_body(constants, s + x), x);
    }
}

/// `not` with its slot is read alike where something follows the slot.
pub proof fn lemma_not_local(constants: SpecConstants, s: Seq<char>, x: Seq<char>)
    requires
        spec_not_body(constants, s) is Parsed,
        spec_not_body(constants, s)->Parsed_rest.len() > 0,
    ensures
        carried(spec_not_body(constants, s), spec_not_body(constants, s + x), x),
    decreases s.len(), 1nat,
{
    lemma_run_length(s, CharClass::AlphaOrUnderscore);
    lemma_keyword_advances(s, "not");
    let after = spec_keyword(s, "not")->Parsed_rest;
    lemma_run_length(after, CharClass::Space);
    lemma_keyword_local(s, x, "not");
    lemma_scan_local(after, x, CharClass::Space);
    let open = spec_multispace0(after);
    lemma_symbol_local(open, x, OPEN_BRACE);
    lemma_not_slot_local(constants, open.skip(1), s.len(), x);
}

/// The slot of `not` is read alike where something follows it.
pub proof fn lemma_not_slot_local(
    constants: SpecConstants,
    s: Seq<char>,
    limit: nat,
    x: Seq<char>,
)
    requires
        s.len() < limit,
        spec_not_slot(constants, s, limit) is Parsed,
        spec_not_slot(constants, s, limit)->Parsed_rest.len() > 0,
    ensures
        carried(
            spec_not_slot(constants, s, limit),
            spec_not_slot(constants, s + x, limit + x.len()),
            x,
        ),
    decreases limit, 0nat,
{
    lemma_run_length(s, CharClass::Space);
    let inner = spec_multispace0(s);
    if spec_block(constants, inner) is Parsed {
        lemma_block_advances(constants, inner);
        lemma_scan_local(s, x, CharClass::Space);
        lemma_block_local(constants, inner, x);
    } else {
        let middle = spec_optional_extractor(constants, s)->Parsed_rest;
        lemma_single_body_advances(constants, s);
        lemma_single_body_advances(constants, middle);
        lemma_scan_local(s, x, CharClass::Space);
        if spec_extractor(constants, inner) is Parsed {
            lemma_item_is_no_block(constants, inner, x, true);
        } else {
            lemma_item_is_no_block(constants, inner, x, false);
        }
        lemma_extractor_and_filter_local(constants, s, x);
    }
}

/// `or` and `and` with their slots are read alike, whatever follows the
/// second slot.
pub proof fn lemma_pair_local(constants: SpecConstants, s: Seq<char>, any: bool, x: Seq<char>)
    requires
        spec_pair(constants, s, any) is Parsed,
    ensures
        carried(spec_pair(constants, s, any), spec_pair(constants, s + x, any), x),
    decreases s.len(), 1nat,
{
    let word = if any {
        "or"
    } else {
        "and"
    };
    lemma_run_length(s, CharClass::AlphaOrUnderscore);
    lemma_keyword_advances(s, word);
    let after = spec_keyword(s, word)->Parsed_rest;
    lemma_run_length(after, CharClass::Space);
    lemma_keyword_local(s, x, word);
    lemma_scan_local(after, x, CharClass::Space);
    lemma_pair_body_local(constants, spec_multispace0(after), any, s.len(), x);
}

/// The slots of `or` and `and` are read alike, whatever follows the second.
pub proof fn lemma_pair_body_local(
    constants: SpecConstants,
    s: Seq<char>,
    any: bool,
    limit: nat,
    x: Seq<char>,
)
    requires
        s.len() < limit,
        spec_pair_body(constants, s, any, limit) is Parsed,
    ensures
        carried(
            spec_pair_body(constants, s, any, limit),
            spec_pair_body(constants, s + x, any, limit + x.len()),
            x,
        ),
    decreases limit, 0nat,
{
    lemma_symbol_local(s, x, OPEN_BRACE);
    let inner = s.skip(1);
    lemma_run_length(inner, CharClass::Space);
    let first = spec_multispace0(inner);
    lemma_block_advances(constants, first);
    lemma_scan_local(inner, x, CharClass::Space);
    lemma_block_local(constants, first, x);
    let middle = spec_block(constants, first)->Parsed_rest;
    lemma_run_length(middle, CharClass::Space);
    lemma_scan_local(middle, x, CharClass::Space);
    let comma = spec_multispace0(middle);
    lemma_symbol_local(comma, x, COMMA);
    let last = comma.skip(1);
    lemma_run_length(last, CharClass::Space);
    let second = spec_multispace0(last);
    lemma_block_advances(constants, second);
    lemma_scan_local(last, x, CharClass::Space);
    lemma_block_local(constants, second, x);
}

} // verus!
