//! Typed literals: their syntax and their model.
use crate::error::{
    caused, either, leaf, no_alternative, outcome, shorter, ErrorKind, Expectation, Failure,
    Outcome, ParserError, ScannerKind, SpecError,
};
use crate::keyword::{keyword, spec_keyword};
use crate::parser::{
    all_of, alphanumeric1, hex1, name_parser, scan1, spec_alphanumeric1, spec_hex1, spec_name,
    spec_scan1,
};
use crate::symbol::{spec_symbol, symbol, DOUBLE_QUOTE, HASHTAG, TILDE};
use crate::table::{Constants, SpecConstants, SpecVariables, StateVariables};
use crate::text::{is_hex_digit, str_equal, CharClass};
use vstd::prelude::*;
use vstd::string::*;

verus! {

/// A typed value written in the source text.
#[derive(Debug, Eq, PartialEq, Ord, PartialOrd)]
pub enum Literal {
    U8(u8),
    U16(u16),
    U32(u32),
    Bool(bool),
    String(String),
    /// Red, green, blue and brightness.
    Rgb(u8, u8, u8, u8),
    /// Red, green, blue, white and brightness.
    Rgbw(u8, u8, u8, u8, u8),
}

/// The model of a [`Literal`].
pub ghost enum SpecLiteral {
    U8(u8),
    U16(u16),
    U32(u32),
    Bool(bool),
    String(Seq<char>),
    Rgb(u8, u8, u8, u8),
    Rgbw(u8, u8, u8, u8, u8),
}

impl DeepView for Literal {
    type V = SpecLiteral;

    open spec fn deep_view(&self) -> SpecLiteral {
        match self {
            Literal::U8(v) => SpecLiteral::U8(*v),
            Literal::U16(v) => SpecLiteral::U16(*v),
            Literal::U32(v) => SpecLiteral::U32(*v),
            Literal::Bool(v) => SpecLiteral::Bool(*v),
            Literal::String(v) => SpecLiteral::String(v@),
            Literal::Rgb(r, g, b, brightness) => SpecLiteral::Rgb(*r, *g, *b, *brightness),
            Literal::Rgbw(r, g, b, w, brightness) => SpecLiteral::Rgbw(
                *r,
                *g,
                *b,
                *w,
                *brightness,
            ),
        }
    }
}

impl Clone for Literal {
    fn clone(&self) -> (copy: Literal)
        ensures
            copy.deep_view() == self.deep_view(),
    {
        match self {
            Literal::U8(v) => Literal::U8(*v),
            Literal::U16(v) => Literal::U16(*v),
            Literal::U32(v) => Literal::U32(*v),
            Literal::Bool(v) => Literal::Bool(*v),
            Literal::String(v) => Literal::String(v.clone()),
            Literal::Rgb(r, g, b, brightness) => Literal::Rgb(*r, *g, *b, *brightness),
            Literal::Rgbw(r, g, b, w, brightness) => Literal::Rgbw(*r, *g, *b, *w, *brightness),
        }
    }
}

/// The value of the digit `c` in base 16, or 16 where `c` is no digit.
pub open spec fn digit_value(c: char) -> nat {
    if '0' <= c && c <= '9' {
        (c as nat - '0' as nat) as nat
    } else if 'a' <= c && c <= 'f' {
        (c as nat - 'a' as nat + 10) as nat
    } else if 'A' <= c && c <= 'F' {
        (c as nat - 'A' as nat + 10) as nat
    } else {
        16
    }
}

/// The number that the digits `s` write in base `radix`: none for an empty
/// text and for one that holds anything but digits of that base.
pub open spec fn digits_value(s: Seq<char>, radix: nat) -> Option<nat>
    decreases s.len(),
{
    if s.len() == 0 {
        None
    } else if digit_value(s.last()) >= radix {
        None
    } else if s.len() == 1 {
        Some(digit_value(s.last()))
    } else {
        match digits_value(s.drop_last(), radix) {
            Some(high) => Some(high * radix + digit_value(s.last())),
            None => None,
        }
    }
}

/// Whether `s` starts with `0` and `marker`.
pub open spec fn has_prefix(s: Seq<char>, marker: char) -> bool {
    s.len() >= 2 && s[0] == '0' && s[1] == marker
}

/// The number that `s` writes: hexadecimal after `0x`, binary after `0b`,
/// decimal otherwise.
pub open spec fn number_value(s: Seq<char>) -> Option<nat> {
    if has_prefix(s, 'x') {
        digits_value(s.skip(2), 16)
    } else if has_prefix(s, 'b') {
        digits_value(s.skip(2), 2)
    } else {
        digits_value(s, 10)
    }
}

/// Whether `s` holds nothing but hexadecimal digits, `x` and `-`: the texts
/// that the two number scanners hand out.
pub open spec fn is_number_text(s: Seq<char>) -> bool {
    forall|i: int| 0 <= i < s.len() ==> is_hex_digit(#[trigger] s[i]) || s[i] == 'x' || s[i] == '-'
}

/// Calls `parse_int::parse::<u8>`. On a text of hexadecimal digits, `x` and
/// `-` that function takes the digits after `0x` in base 16, those after
/// `0b` in base 2 and any other text in base 10, with std's `from_str_radix`:
/// it gives the number written where that fits the type, and fails on an
/// empty digit text, on a character that is no digit of the base (a sign
/// too) and on a number that does not fit.
#[verifier::external_body]
fn parse_u8(text: &str) -> (r: Option<u8>)
    requires
        is_number_text(text@),
    ensures
        r matches Some(v) ==> number_value(text@) == Some(v as nat),
        r is None ==> (number_value(text@) matches Some(v) ==> v > u8::MAX),
{
    parse_int::parse::<u8>(text).ok()
}

/// Calls `parse_int::parse::<u16>`: as for `u8`, with the range of `u16`.
#[verifier::external_body]
fn parse_u16(text: &str) -> (r: Option<u16>)
    requires
        is_number_text(text@),
    ensures
        r matches Some(v) ==> number_value(text@) == Some(v as nat),
        r is None ==> (number_value(text@) matches Some(v) ==> v > u16::MAX),
{
    parse_int::parse::<u16>(text).ok()
}

/// Calls `parse_int::parse::<u32>`: as for `u8`, with the range of `u32`.
#[verifier::external_body]
fn parse_u32(text: &str) -> (r: Option<u32>)
    requires
        is_number_text(text@),
    ensures
        r matches Some(v) ==> number_value(text@) == Some(v as nat),
        r is None ==> (number_value(text@) matches Some(v) ==> v > u32::MAX),
{
    parse_int::parse::<u32>(text).ok()
}

/// One of the keywords `false` and `true`.
pub open spec fn spec_boolean(s: Seq<char>) -> Outcome<bool> {
    match spec_keyword(s, "false") {
        Outcome::Parsed { rest, value } => Outcome::Parsed { rest, value: false },
        Outcome::Fatal(e) => Outcome::Fatal(e),
        Outcome::Recoverable(e1) => match spec_keyword(s, "true") {
            Outcome::Parsed { rest, value } => Outcome::Parsed { rest, value: true },
            Outcome::Fatal(e) => Outcome::Fatal(e),
            Outcome::Recoverable(e2) => Outcome::Recoverable(no_alternative(s, either(e1, e2))),
        },
    }
}

/// A run of `class`, then `~`, then a run of letters and digits: the digits
/// of a number and its type suffix.
pub open spec fn spec_number(s: Seq<char>, class: CharClass) -> Outcome<(Seq<char>, Seq<char>)> {
    match spec_scan1(s, class) {
        Outcome::Parsed { rest, value: digits } => match spec_symbol(rest, TILDE) {
            Outcome::Parsed { rest, value } => match spec_alphanumeric1(rest) {
                Outcome::Parsed { rest, value: suffix } => Outcome::Parsed {
                    rest,
                    value: (digits, suffix),
                },
                Outcome::Recoverable(e) => Outcome::Recoverable(e),
                Outcome::Fatal(e) => Outcome::Fatal(e),
            },
            Outcome::Recoverable(e) => Outcome::Recoverable(e),
            Outcome::Fatal(e) => Outcome::Fatal(e),
        },
        Outcome::Recoverable(e) => Outcome::Recoverable(e),
        Outcome::Fatal(e) => Outcome::Fatal(e),
    }
}

/// The number of characters of `s` before the first `c`, or the length of
/// `s` where it holds none.
pub open spec fn index_of(s: Seq<char>, c: char) -> nat
    decreases s.len(),
{
    if s.len() == 0 || s[0] == c {
        0
    } else {
        1 + index_of(s.skip(1), c)
    }
}

/// `index_of` is a position in the text, or its length; `c` stands there and
/// nowhere before.
pub proof fn lemma_index_of(s: Seq<char>, c: char)
    ensures
        index_of(s, c) <= s.len(),
        index_of(s, c) < s.len() ==> s[index_of(s, c) as int] == c,
        forall|i: int| 0 <= i < index_of(s, c) ==> #[trigger] s[i] != c,
    decreases s.len(),
{
    if !(s.len() == 0 || s[0] == c) {
        let t = s.skip(1);
        lemma_index_of(t, c);
        assert forall|i: int| 0 <= i < index_of(s, c) implies #[trigger] s[i] != c by {
            if i > 0 {
                assert(s[i] == t[i - 1]);
            }
        }
        if index_of(s, c) < s.len() {
            assert(s[index_of(s, c) as int] == t[index_of(t, c) as int]);
        }
    }
}

/// A double quote, any characters but a double quote, and a double quote.
pub open spec fn spec_string(s: Seq<char>) -> Outcome<Seq<char>> {
    match spec_symbol(s, DOUBLE_QUOTE) {
        Outcome::Parsed { rest, value } => {
            let n = index_of(rest, DOUBLE_QUOTE) as int;
            if n < rest.len() {
                Outcome::Parsed { rest: rest.skip(n + 1), value: rest.take(n) }
            } else {
                Outcome::Recoverable(leaf(rest, ErrorKind::Scanner(ScannerKind::TakeUntil)))
            }
        },
        Outcome::Recoverable(e) => Outcome::Recoverable(e),
        Outcome::Fatal(e) => Outcome::Fatal(e),
    }
}

/// `#`, then a run of hexadecimal digits and `x`.
pub open spec fn spec_color(s: Seq<char>) -> Outcome<Seq<char>> {
    match spec_symbol(s, HASHTAG) {
        Outcome::Parsed { rest, value } => spec_hex1(rest),
        Outcome::Recoverable(e) => Outcome::Recoverable(e),
        Outcome::Fatal(e) => Outcome::Fatal(e),
    }
}

/// The number that `digits` write, where it is at most `max`.
pub open spec fn number_within(digits: Seq<char>, max: nat) -> Option<nat> {
    match number_value(digits) {
        Some(v) => if v <= max {
            Some(v)
        } else {
            None
        },
        None => None,
    }
}

/// The literal that `digits` with the type suffix `suffix` write. A number
/// that does not fit the type fails at the digits, an unknown suffix at the
/// suffix.
pub open spec fn typed_number(rest: Seq<char>, digits: Seq<char>, suffix: Seq<char>) -> Outcome<
    SpecLiteral,
> {
    let bad_value = Outcome::Recoverable(leaf(digits, ErrorKind::Expected(Expectation::Value)));
    if suffix == "u8"@ {
        match number_within(digits, u8::MAX as nat) {
            Some(v) => Outcome::Parsed { rest, value: SpecLiteral::U8(v as u8) },
            None => bad_value,
        }
    } else if suffix == "u16"@ {
        match number_within(digits, u16::MAX as nat) {
            Some(v) => Outcome::Parsed { rest, value: SpecLiteral::U16(v as u16) },
            None => bad_value,
        }
    } else if suffix == "u32"@ {
        match number_within(digits, u32::MAX as nat) {
            Some(v) => Outcome::Parsed { rest, value: SpecLiteral::U32(v as u32) },
            None => bad_value,
        }
    } else {
        Outcome::Recoverable(leaf(suffix, ErrorKind::Expected(Expectation::Type)))
    }
}

/// The value of the two hexadecimal digits of `digits` at `2 * i`.
pub open spec fn channel(digits: Seq<char>, i: int) -> u8 {
    (digit_value(digits[2 * i]) * 16 + digit_value(digits[2 * i + 1])) as u8
}

/// Whether every character of `s` is a hexadecimal digit.
pub open spec fn all_hex_digits(s: Seq<char>) -> bool {
    forall|i: int| 0 <= i < s.len() ==> is_hex_digit(#[trigger] s[i])
}

/// The colour that the hexadecimal digits after `#` write: four channels for
/// eight digits, five for ten. Anything else fails at `s`, the text of the
/// whole literal.
pub open spec fn color_literal(s: Seq<char>, rest: Seq<char>, digits: Seq<char>) -> Outcome<
    SpecLiteral,
> {
    if digits.len() == 8 && all_hex_digits(digits) {
        Outcome::Parsed {
            rest,
            value: SpecLiteral::Rgb(
                channel(digits, 0),
                channel(digits, 1),
                channel(digits, 2),
                channel(digits, 3),
            ),
        }
    } else if digits.len() == 10 && all_hex_digits(digits) {
        Outcome::Parsed {
            rest,
            value: SpecLiteral::Rgbw(
                channel(digits, 0),
                channel(digits, 1),
                channel(digits, 2),
                channel(digits, 3),
                channel(digits, 4),
            ),
        }
    } else {
        Outcome::Recoverable(leaf(s, ErrorKind::Expected(Expectation::Value)))
    }
}

/// The failure of a text that starts with no literal: the failures of the
/// five forms, in the order in which they are tried, are its cause.
pub open spec fn not_a_literal(
    s: Seq<char>,
    e1: SpecError,
    e2: SpecError,
    e3: SpecError,
    e4: SpecError,
    e5: SpecError,
) -> SpecError {
    caused(
        s,
        ErrorKind::Expected(Expectation::Literal),
        no_alternative(s, either(either(either(either(e1, e2), e3), e4), e5)),
    )
}

/// A literal. The forms are tried in this order: a boolean keyword; a number
/// in hexadecimal digits with its type suffix; a number in decimal digits
/// with its type suffix; a string in double quotes; a colour after `#`.
pub open spec fn spec_literal(s: Seq<char>) -> Outcome<SpecLiteral> {
    match spec_boolean(s) {
        Outcome::Parsed { rest, value } => Outcome::Parsed {
            rest,
            value: SpecLiteral::Bool(value),
        },
        Outcome::Fatal(e) => Outcome::Fatal(e),
        Outcome::Recoverable(e1) => match spec_number(s, CharClass::Hex) {
            Outcome::Parsed { rest, value } => typed_number(rest, value.0, value.1),
            Outcome::Fatal(e) => Outcome::Fatal(e),
            Outcome::Recoverable(e2) => match spec_number(s, CharClass::Decimal) {
                Outcome::Parsed { rest, value } => typed_number(rest, value.0, value.1),
                Outcome::Fatal(e) => Outcome::Fatal(e),
                Outcome::Recoverable(e3) => match spec_string(s) {
                    Outcome::Parsed { rest, value } => Outcome::Parsed {
                        rest,
                        value: SpecLiteral::String(value),
                    },
                    Outcome::Fatal(e) => Outcome::Fatal(e),
                    Outcome::Recoverable(e4) => match spec_color(s) {
                        Outcome::Parsed { rest, value } => color_literal(s, rest, value),
                        Outcome::Fatal(e) => Outcome::Fatal(e),
                        Outcome::Recoverable(e5) => Outcome::Recoverable(
                            not_a_literal(s, e1, e2, e3, e4, e5),
                        ),
                    },
                },
            },
        },
    }
}

/// Takes one of the keywords `false` and `true` from the front of `text`.
pub fn boolean<'a>(text: &'a str) -> (r: Result<(&'a str, bool), Failure>)
    ensures
        outcome(r) == spec_boolean(text@),
        shorter(text, r),
{
    match keyword(text, "false") {
        Ok((rest, _)) => Ok((rest, false)),
        Err(Failure::Fatal(e)) => Err(Failure::Fatal(e)),
        Err(Failure::Recoverable(e1)) => match keyword(text, "true") {
            Ok((rest, _)) => Ok((rest, true)),
            Err(Failure::Fatal(e)) => Err(Failure::Fatal(e)),
            Err(Failure::Recoverable(e2)) => Err(
                Failure::Recoverable(ParserError::append(text, ScannerKind::Alt, e1.or(e2))),
            ),
        },
    }
}

/// Takes the digits of a number, `~` and the type suffix from the front of
/// `text`. The digits are a run of `class`, which is `Hex` or `Decimal`.
pub fn number<'a>(text: &'a str, class: CharClass) -> (r: Result<
    (&'a str, (&'a str, &'a str)),
    Failure,
>)
    ensures
        outcome(r) == spec_number(text@, class),
        shorter(text, r),
        r matches Ok((_, found)) ==> all_of(found.0@, class),
{
    let (rest, digits) = scan1(text, class)?;
    let (rest, _) = symbol(rest, TILDE)?;
    let (rest, suffix) = alphanumeric1(rest)?;
    Ok((rest, (digits, suffix)))
}

/// Counts the characters of `text` before the first `c`.
pub fn find(text: &str, c: char) -> (n: usize)
    ensures
        n == index_of(text@, c),
        n <= text@.len(),
{
    let len = text.unicode_len();
    let mut n: usize = 0;
    proof {
        assert(text@.skip(0) =~= text@);
    }
    while n < len && text.get_char(n) != c
        invariant
            len == text@.len(),
            n <= len,
            index_of(text@, c) == n + index_of(text@.skip(n as int), c),
        decreases len - n,
    {
        proof {
            let t = text@.skip(n as int);
            assert(t[0] == text@[n as int]);
            assert(t.skip(1) =~= text@.skip(n + 1));
        }
        n = n + 1;
    }
    proof {
        let t = text@.skip(n as int);
        if n < len {
            assert(t[0] == text@[n as int]);
        }
    }
    n
}

/// Takes a string in double quotes from the front of `text`, and hands out
/// what stands between the quotes. A string that is not closed fails after
/// the opening quote.
pub fn string<'a>(text: &'a str) -> (r: Result<(&'a str, &'a str), Failure>)
    ensures
        outcome(r) == spec_string(text@),
        shorter(text, r),
{
    let (rest, _) = symbol(text, DOUBLE_QUOTE)?;
    let n = find(rest, DOUBLE_QUOTE);
    let len = rest.unicode_len();
    if n < len {
        let content = rest.substring_char(0, n);
        let after = rest.substring_char(n + 1, len);
        proof {
            assert(content@ =~= rest@.take(n as int));
            assert(after@ =~= rest@.skip(n + 1));
        }
        Ok((after, content))
    } else {
        Err(Failure::Recoverable(ParserError::from_error_kind(rest, ScannerKind::TakeUntil)))
    }
}

/// Takes `#` and the run of hexadecimal digits and `x` after it from the
/// front of `text`.
pub fn color<'a>(text: &'a str) -> (r: Result<(&'a str, &'a str), Failure>)
    ensures
        outcome(r) == spec_color(text@),
        shorter(text, r),
{
    let (rest, _) = symbol(text, HASHTAG)?;
    hex1(rest)
}

/// The literal that `digits` with the type suffix `suffix` write, with
/// `rest` as what the literal left.
fn typed<'a>(rest: &'a str, digits: &'a str, suffix: &'a str) -> (r: Result<
    (&'a str, Literal),
    Failure,
>)
    requires
        is_number_text(digits@),
    ensures
        outcome(r) == typed_number(rest@, digits@, suffix@),
        r matches Ok((left, _)) ==> left@ == rest@,
{
    let bad_value = ErrorKind::Expected(Expectation::Value);
    if str_equal(suffix, "u8") {
        match parse_u8(digits) {
            Some(v) => Ok((rest, Literal::U8(v))),
            None => Err(Failure::recoverable(digits, bad_value)),
        }
    } else if str_equal(suffix, "u16") {
        match parse_u16(digits) {
            Some(v) => Ok((rest, Literal::U16(v))),
            None => Err(Failure::recoverable(digits, bad_value)),
        }
    } else if str_equal(suffix, "u32") {
        match parse_u32(digits) {
            Some(v) => Ok((rest, Literal::U32(v))),
            None => Err(Failure::recoverable(digits, bad_value)),
        }
    } else {
        Err(Failure::recoverable(suffix, ErrorKind::Expected(Expectation::Type)))
    }
}

/// The value of the hexadecimal digit `c`, or 16 where `c` is no digit.
fn hex_value(c: char) -> (v: u8)
    ensures
        v == digit_value(c),
        v < 16 <==> is_hex_digit(c),
{
    if '0' <= c && c <= '9' {
        (c as u32 - '0' as u32) as u8
    } else if 'a' <= c && c <= 'f' {
        (c as u32 - 'a' as u32 + 10) as u8
    } else if 'A' <= c && c <= 'F' {
        (c as u32 - 'A' as u32 + 10) as u8
    } else {
        16
    }
}

/// The values of the pairs of hexadecimal digits in `digits`, or nothing
/// where a character of `digits` is no hexadecimal digit.
fn channels(digits: &str) -> (r: Option<Vec<u8>>)
    requires
        digits@.len() % 2 == 0,
    ensures
        r is Some <==> all_hex_digits(digits@),
        r matches Some(v) ==> v@.len() * 2 == digits@.len() && forall|i: int|
            0 <= i < v@.len() ==> #[trigger] v@[i] == channel(digits@, i),
{
    let len = digits.unicode_len();
    let mut values: Vec<u8> = Vec::new();
    let mut i: usize = 0;
    while i < len
        invariant
            len == digits@.len(),
            len % 2 == 0,
            i <= len,
            i % 2 == 0,
            values@.len() * 2 == i,
            forall|j: int| 0 <= j < i ==> is_hex_digit(#[trigger] digits@[j]),
            forall|j: int| 0 <= j < values@.len() ==> #[trigger] values@[j] == channel(digits@, j),
        decreases len - i,
    {
        let high = hex_value(digits.get_char(i));
        let low = hex_value(digits.get_char(i + 1));
        if high >= 16 || low >= 16 {
            return None;
        }
        values.push(high * 16 + low);
        i = i + 2;
    }
    Some(values)
}

/// The colour that the digits after `#` write, with `text` as the text of
/// the whole literal and `rest` as what the literal left.
fn to_color<'a>(text: &'a str, rest: &'a str, digits: &'a str) -> (r: Result<
    (&'a str, Literal),
    Failure,
>)
    ensures
        outcome(r) == color_literal(text@, rest@, digits@),
        r matches Ok((left, _)) ==> left@ == rest@,
{
    let len = digits.unicode_len();
    if len == 8 {
        if let Some(v) = channels(digits) {
            return Ok((rest, Literal::Rgb(v[0], v[1], v[2], v[3])));
        }
    } else if len == 10 {
        if let Some(v) = channels(digits) {
            return Ok((rest, Literal::Rgbw(v[0], v[1], v[2], v[3], v[4])));
        }
    }
    Err(Failure::recoverable(text, ErrorKind::Expected(Expectation::Value)))
}

/// Takes a literal from the front of `text`: `true` or `false`; a number as
/// `0x` and hexadecimal digits or as decimal digits, then `~` and one of
/// `u8`, `u16`, `u32`; a string in double quotes; `#` and eight or ten
/// hexadecimal digits. A number that does not fit its type fails at its
/// digits, an unknown type at the suffix, and a text that starts with none
/// of the forms at `text`, with the failure of each form as the cause.
pub fn literal<'a>(text: &'a str) -> (r: Result<(&'a str, Literal), Failure>)
    ensures
        outcome(r) == spec_literal(text@),
        shorter(text, r),
{
    let e1 = match boolean(text) {
        Ok((rest, value)) => return Ok((rest, Literal::Bool(value))),
        Err(Failure::Fatal(e)) => return Err(Failure::Fatal(e)),
        Err(Failure::Recoverable(e)) => e,
    };
    let e2 = match number(text, CharClass::Hex) {
        Ok((rest, (digits, suffix))) => return typed(rest, digits, suffix),
        Err(Failure::Fatal(e)) => return Err(Failure::Fatal(e)),
        Err(Failure::Recoverable(e)) => e,
    };
    let e3 = match number(text, CharClass::Decimal) {
        Ok((rest, (digits, suffix))) => return typed(rest, digits, suffix),
        Err(Failure::Fatal(e)) => return Err(Failure::Fatal(e)),
        Err(Failure::Recoverable(e)) => e,
    };
    let e4 = match string(text) {
        Ok((rest, content)) => return Ok((rest, Literal::String(content.to_owned()))),
        Err(Failure::Fatal(e)) => return Err(Failure::Fatal(e)),
        Err(Failure::Recoverable(e)) => e,
    };
    let e5 = match color(text) {
        Ok((rest, digits)) => return to_color(text, rest, digits),
        Err(Failure::Fatal(e)) => return Err(Failure::Fatal(e)),
        Err(Failure::Recoverable(e)) => e,
    };
    let siblings = e1.or(e2).or(e3).or(e4).or(e5);
    let cause = ParserError::append(text, ScannerKind::Alt, siblings);
    Err(
        Failure::Recoverable(
            ParserError::caused(text, ErrorKind::Expected(Expectation::Literal), cause),
        ),
    )
}

/// A name that is a constant, or else a literal.
pub open spec fn spec_literal_or_constant(
    constants: SpecConstants,
    s: Seq<char>,
) -> Outcome<SpecLiteral> {
    match spec_name(s) {
        Outcome::Parsed { rest, value: name } => if constants.contains_key(name) {
            Outcome::Parsed { rest, value: constants[name] }
        } else {
            spec_literal(s)
        },
        _ => spec_literal(s),
    }
}

/// Takes a value from the front of `text`: where `text` starts with the name
/// of a constant, the value of that constant, and otherwise a literal.
pub fn literal_or_constant<'a>(constants: &Constants, text: &'a str) -> (r: Result<
    (&'a str, Literal),
    Failure,
>)
    ensures
        outcome(r) == spec_literal_or_constant(constants@, text@),
        shorter(text, r),
{
    if let Ok((rest, name)) = name_parser(text) {
        if let Some(constant) = constants.get(name) {
            return Ok((rest, constant));
        }
    }
    literal(text)
}

/// The name of a state variable.
pub open spec fn spec_state_variable(variables: SpecVariables, s: Seq<char>) -> Outcome<u32> {
    match spec_name(s) {
        Outcome::Parsed { rest, value: name } => if variables.contains_key(name) {
            Outcome::Parsed { rest, value: variables[name] }
        } else {
            Outcome::Recoverable(leaf(s, ErrorKind::Expected(Expectation::StateVariable)))
        },
        Outcome::Recoverable(e) => Outcome::Recoverable(e),
        Outcome::Fatal(e) => Outcome::Fatal(e),
    }
}

/// Takes the name of a state variable from the front of `text`, and hands
/// out the index of its slot. A name that is no state variable fails at
/// `text`.
pub fn state_variable<'a>(variables: &StateVariables, text: &'a str) -> (r: Result<
    (&'a str, u32),
    Failure,
>)
    ensures
        outcome(r) == spec_state_variable(variables@, text@),
        shorter(text, r),
{
    let (rest, name) = name_parser(text)?;
    match variables.get(name) {
        Some(index) => Ok((rest, index)),
        None => Err(
            Failure::recoverable(text, ErrorKind::Expected(Expectation::StateVariable)),
        ),
    }
}

} // verus!
