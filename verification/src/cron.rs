//! Cron expressions: six fields of values, and a seventh that is not read.
use crate::error::{leaf, ErrorKind, Expectation, ParserError, SpecError};
use crate::value::{CronExpression, CronField, SpecCronExpression, SpecCronField};
use vstd::prelude::*;
use vstd::string::*;

verus! {

/// Whether `c` is one of Unicode's white space characters.
pub open spec fn is_whitespace(c: char) -> bool {
    ('\u{9}' <= c && c <= '\u{d}') || c == ' ' || c == '\u{85}' || c == '\u{a0}' || c == '\u{1680}'
        || ('\u{2000}' <= c && c <= '\u{200a}') || c == '\u{2028}' || c == '\u{2029}' || c
        == '\u{202f}' || c == '\u{205f}' || c == '\u{3000}'
}

/// Tests whether `c` is one of Unicode's white space characters.
pub fn whitespace(c: char) -> (b: bool)
    ensures
        b == is_whitespace(c),
{
    ('\u{9}' <= c && c <= '\u{d}') || c == ' ' || c == '\u{85}' || c == '\u{a0}' || c == '\u{1680}'
        || ('\u{2000}' <= c && c <= '\u{200a}') || c == '\u{2028}' || c == '\u{2029}' || c
        == '\u{202f}' || c == '\u{205f}' || c == '\u{3000}'
}

/// The length of the longest prefix of `s` in which every character is
/// white space (`blank`) or none is (`!blank`).
pub open spec fn stretch(s: Seq<char>, blank: bool) -> nat
    decreases s.len(),
{
    if s.len() > 0 && is_whitespace(s[0]) == blank {
        1 + stretch(s.skip(1), blank)
    } else {
        0
    }
}

/// A stretch is no longer than the text.
pub proof fn lemma_stretch(s: Seq<char>, blank: bool)
    ensures
        stretch(s, blank) <= s.len(),
    decreases s.len(),
{
    if s.len() > 0 && is_whitespace(s[0]) == blank {
        lemma_stretch(s.skip(1), blank);
    }
}

/// The words of `s`: its longest stretches without white space, in order.
pub open spec fn words(s: Seq<char>) -> Seq<Seq<char>>
    decreases s.len(),
{
    let blank = stretch(s, true) as int;
    let t = s.skip(blank);
    let n = stretch(t, false) as int;
    proof {
        lemma_stretch(s, true);
        lemma_stretch(t, false);
    }
    if n > 0 {
        seq![t.take(n)] + words(t.skip(n))
    } else {
        Seq::empty()
    }
}

/// Counts the characters at the front of `text` that are white space
/// (`blank`) or are not (`!blank`).
fn count_stretch(text: &str, blank: bool) -> (n: usize)
    ensures
        n == stretch(text@, blank),
        n <= text@.len(),
{
    let len = text.unicode_len();
    let mut n: usize = 0;
    proof {
        assert(text@.skip(0) =~= text@);
    }
    while n < len && whitespace(text.get_char(n)) == blank
        invariant
            len == text@.len(),
            n <= len,
            stretch(text@, blank) == n + stretch(text@.skip(n as int), blank),
        decreases len - n,
    {
        proof {
            let t = text@.skip(n as int);
            assert(t[0] == text@[n as int]);
            assert(t.skip(1) =~= text@.skip(n + 1));
        }
        n = n + 1;
    }
    proof {
        let t = text@.skip(n as int);
        if n < len {
            assert(t[0] == text@[n as int]);
        }
    }
    n
}

/// Splits `text` into its words.
pub fn split_whitespace<'a>(text: &'a str) -> (found: Vec<&'a str>)
    ensures
        found.deep_view() == words(text@),
{
    let mut found: Vec<&'a str> = Vec::new();
    let mut rest = text;
    proof {
        assert(found.deep_view() =~= Seq::empty());
    }
    loop
        invariant
            words(text@) == found.deep_view() + words(rest@),
        decreases rest@.len(),
    {
        let blank = count_stretch(rest, true);
        let len = rest.unicode_len();
        let start = rest.substring_char(blank, len);
        let n = count_stretch(start, false);
        proof {
            assert(start@ =~= rest@.skip(blank as int));
        }
        if n == 0 {
            proof {
                assert(words(rest@) =~= Seq::empty());
                assert(found.deep_view() + words(rest@) =~= found.deep_view());
            }
            return found;
        }
        let word = start.substring_char(0, n);
        let after = start.substring_char(n, len - blank);
        proof {
            assert(word@ =~= start@.take(n as int));
            assert(after@ =~= start@.skip(n as int));
            assert(found.deep_view().push(word@) + words(after@) =~= found.deep_view() + (seq![
                word@,
            ] + words(after@)));
        }
        let ghost before = found.deep_view();
        found.push(word);
        proof {
            assert(found.deep_view() =~= before.push(word@));
        }
        rest = after;
    }
}

/// Whether `s` holds `*/` at `i`.
pub open spec fn step_at(s: Seq<char>, i: int) -> bool {
    0 <= i && i + 1 < s.len() && s[i] == '*' && s[i + 1] == '/'
}

/// Whether, from `i` on, every part of `s` between commas that starts with
/// `*/` holds a digit from 1 to 9. `pending` says that the part in which `i`
/// stands starts with `*/` and has shown no such digit before `i`.
pub open spec fn steps_from(s: Seq<char>, i: int, pending: bool) -> bool
    decreases s.len() - i,
{
    if i < 0 || i >= s.len() {
        !pending
    } else if s[i] == ',' {
        !pending && steps_from(s, i + 1, step_at(s, i + 1))
    } else {
        steps_from(s, i + 1, pending && !('1' <= s[i] && s[i] <= '9'))
    }
}

/// Whether every part of `s` between commas that starts with `*/` holds a
/// digit from 1 to 9: no step that `s` asks for is zero.
pub open spec fn steps_are_positive(s: Seq<char>) -> bool {
    steps_from(s, 0, step_at(s, 0))
}

/// Tests whether `text` holds `*/` at `i`.
fn is_step_at(text: &str, i: usize, len: usize) -> (b: bool)
    requires
        len == text@.len(),
    ensures
        b == step_at(text@, i as int),
{
    i < len && len - i > 1 && text.get_char(i) == '*' && text.get_char(i + 1) == '/'
}

/// Tests whether no step that `text` asks for is zero.
pub fn has_positive_steps(text: &str) -> (b: bool)
    ensures
        b == steps_are_positive(text@),
{
    let len = text.unicode_len();
    let mut pending = is_step_at(text, 0, len);
    let mut i: usize = 0;
    while i < len
        invariant
            len == text@.len(),
            i <= len,
            steps_are_positive(text@) == steps_from(text@, i as int, pending),
        decreases len - i,
    {
        let c = text.get_char(i);
        if c == ',' {
            if pending {
                return false;
            }
            pending = is_step_at(text, i + 1, len);
        } else {
            pending = pending && !('1' <= c && c <= '9');
        }
        i = i + 1;
    }
    !pending
}

/// What `cron_parser::parse_field` makes of a field and the bounds of its
/// values: the values that the field stands for, in ascending order, or
/// nothing where it rejects the field.
pub uninterp spec fn cron_field_values(field: Seq<char>, min: u32, max: u32) -> Option<Seq<u32>>;

/// Whether the values of `s` ascend.
pub open spec fn ascending<T>(s: Seq<T>, below: spec_fn(T, T) -> bool) -> bool {
    forall|i: int, j: int| 0 <= i < j < s.len() ==> below(s[i], s[j])
}

/// Calls `cron_parser::parse_field`, which reads a list of values, ranges
/// (`a-b`), `*` and steps (`*/n`), separated by commas, into the set of
/// values that it stands for. The set comes out in ascending order. Each
/// value is at most `max`, but for the names of the days of the week, which
/// stand for 0 to 6. A step of zero is left out: the outside function does
/// not return on it.
#[verifier::external_body]
fn parse_field(field: &str, min: u32, max: u32) -> (r: Option<Vec<u32>>)
    requires
        steps_are_positive(field@),
    ensures
        r.deep_view() == cron_field_values(field@, min, max),
        r matches Some(values) ==> ascending(values@, |a: u32, b: u32| a < b) && forall|i: int|
            0 <= i < values@.len() ==> #[trigger] values@[i] <= max || values@[i] <= 6,
{
    cron_parser::parse_field(field, min, max).ok().map(|set| set.into_iter().collect())
}

/// The values of `values` as octets.
pub open spec fn octets(values: Seq<u32>) -> Seq<u8> {
    Seq::new(values.len(), |i: int| values[i] as u8)
}

/// The field that the word `word` of a cron expression writes, for values
/// from `min` to `max`: nothing where the word asks for a step of zero or is
/// rejected as a field.
pub open spec fn spec_cron_field(word: Seq<char>, min: u32, max: u32) -> Option<SpecCronField> {
    if !steps_are_positive(word) {
        None
    } else {
        match cron_field_values(word, min, max) {
            Some(values) => Some(SpecCronField::Including(octets(values))),
            None => None,
        }
    }
}

impl CronField {
    /// Whether the values of the field ascend.
    pub open spec fn well_formed(&self) -> bool {
        match self {
            CronField::Any => true,
            CronField::Including(values) => ascending(values@, |a: u8, b: u8| a < b),
        }
    }
}

impl CronExpression {
    /// Whether the values of each field ascend.
    pub open spec fn well_formed(&self) -> bool {
        &&& self.second.well_formed()
        &&& self.minute.well_formed()
        &&& self.hour.well_formed()
        &&& self.day_month.well_formed()
        &&& self.month.well_formed()
        &&& self.day_week.well_formed()
        &&& self.year.well_formed()
    }
}

/// Reads the word `word` of a cron expression as a field with values from
/// `min` to `max`.
pub fn cron_field(word: &str, min: u8, max: u8) -> (r: Option<CronField>)
    ensures
        r.deep_view() == spec_cron_field(word@, min as u32, max as u32),
        r matches Some(field) ==> field.well_formed(),
{
    if !has_positive_steps(word) {
        return None;
    }
    match parse_field(word, min as u32, max as u32) {
        None => None,
        Some(values) => {
            proof {
                assert(values.deep_view() =~= values@);
            }
            let mut narrow: Vec<u8> = Vec::new();
            let mut i: usize = 0;
            while i < values.len()
                invariant
                    i <= values.len(),
                    narrow@.len() == i,
                    forall|k: int|
                        0 <= k < values@.len() ==> #[trigger] values@[k] <= max || values@[k] <= 6,
                    forall|k: int| 0 <= k < i ==> #[trigger] narrow@[k] == values@[k] as u8,
                decreases values.len() - i,
            {
                assert(values@[i as int] <= max || values@[i as int] <= 6);
                narrow.push(values[i] as u8);
                i = i + 1;
            }
            proof {
                assert(narrow@ =~= octets(values@));
                assert forall|a: int, b: int| 0 <= a < b < narrow@.len() implies narrow@[a]
                    < narrow@[b] by {
                    assert(values@[a] <= max || values@[a] <= 6);
                    assert(values@[b] <= max || values@[b] <= 6);
                    assert(values@[a] < values@[b]);
                }
            }
            Some(CronField::Including(narrow))
        },
    }
}

/// The failure of a string that writes no cron expression.
pub open spec fn not_a_value() -> SpecError {
    leaf(""@, ErrorKind::Expected(Expectation::Value))
}

/// The cron expression that `s` writes: six words, or seven, of which the
/// first six are the fields for seconds (0 to 59), minutes (0 to 59), hours
/// (0 to 23), days of the month (1 to 31), months (1 to 12) and days of the
/// week (1 to 7). The seventh word, the year, is not read: every year
/// matches.
pub open spec fn spec_cron_expression(s: Seq<char>) -> Result<SpecCronExpression, SpecError> {
    let w = words(s);
    if w.len() != 6 && w.len() != 7 {
        Err(not_a_value())
    } else {
        match (
            spec_cron_field(w[0], 0, 59),
            spec_cron_field(w[1], 0, 59),
            spec_cron_field(w[2], 0, 23),
            spec_cron_field(w[3], 1, 31),
            spec_cron_field(w[4], 1, 12),
            spec_cron_field(w[5], 1, 7),
        ) {
            (
                Some(second),
                Some(minute),
                Some(hour),
                Some(day_month),
                Some(month),
                Some(day_week),
            ) => Ok(
                SpecCronExpression {
                    second,
                    minute,
                    hour,
                    day_month,
                    month,
                    day_week,
                    year: SpecCronField::Any,
                },
            ),
            _ => Err(not_a_value()),
        }
    }
}

/// The model of the result `r` of a conversion.
pub open spec fn converted<T: DeepView>(r: Result<T, ParserError>) -> Result<T::V, SpecError> {
    match r {
        Ok(value) => Ok(value.deep_view()),
        Err(e) => Err(e.deep_view()),
    }
}

/// Reads `text` as a cron expression.
pub fn cron_expression(text: &str) -> (r: Result<CronExpression, ParserError>)
    ensures
        converted(r) == spec_cron_expression(text@),
        r matches Ok(expression) ==> expression.well_formed(),
{
    let w = split_whitespace(text);
    let bad = ErrorKind::Expected(Expectation::Value);
    if w.len() != 6 && w.len() != 7 {
        return Err(ParserError::leaf("", bad));
    }
    proof {
        let d = w.deep_view();
        assert(d[0] == w@[0]@ && d[1] == w@[1]@ && d[2] == w@[2]@);
        assert(d[3] == w@[3]@ && d[4] == w@[4]@ && d[5] == w@[5]@);
    }
    let second = match cron_field(w[0], 0, 59) {
        Some(field) => field,
        None => return Err(ParserError::leaf("", bad)),
    };
    let minute = match cron_field(w[1], 0, 59) {
        Some(field) => field,
        None => return Err(ParserError::leaf("", bad)),
    };
    let hour = match cron_field(w[2], 0, 23) {
        Some(field) => field,
        None => return Err(ParserError::leaf("", bad)),
    };
    let day_month = match cron_field(w[3], 1, 31) {
        Some(field) => field,
        None => return Err(ParserError::leaf("", bad)),
    };
    let month = match cron_field(w[4], 1, 12) {
        Some(field) => field,
        None => return Err(ParserError::leaf("", bad)),
    };
    let day_week = match cron_field(w[5], 1, 7) {
        Some(field) => field,
        None => return Err(ParserError::leaf("", bad)),
    };
    Ok(CronExpression { second, minute, hour, day_month, month, day_week, year: CronField::Any })
}

} // verus!
