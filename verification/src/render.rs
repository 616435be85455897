//! Diagnostics as text: the kind of a failure, its place, and under it,
//! indented, what caused it.
use crate::error::{error_trees, ErrorKind, Expectation, ParserError, ScannerKind, SpecError};
use crate::literal::{find, index_of};
use crate::parser::{multispace0, spec_multispace0};
use crate::text::{is_space, CharClass};
use vstd::prelude::*;
use vstd::string::*;

verus! {

/// The most characters of a place that a diagnostic shows.
pub const LOCATION_WIDTH: usize = 32;

/// `String::push` puts one character at the end of the string.
pub assume_specification[ std::string::String::push ](s: &mut std::string::String, c: char)
    ensures
        final(s)@ == old(s)@.push(c),
;

/// The text with two spaces before each line that is not empty. `fresh`
/// says that the text starts a line.
pub open spec fn indented(s: Seq<char>, fresh: bool) -> Seq<char>
    decreases s.len(),
{
    if s.len() == 0 {
        Seq::empty()
    } else if fresh && s[0] != '\n' {
        seq![' ', ' ', s[0]] + indented(s.skip(1), false)
    } else {
        seq![s[0]] + indented(s.skip(1), s[0] == '\n')
    }
}

/// Writes `text` through an `IndentWriter` of `indent_write` with an indent
/// of two spaces. The writer puts the indent before the first character of
/// each line that is not empty, and hands on everything else as it is.
#[verifier::external_body]
fn indent(text: &str) -> (r: String)
    ensures
        r@ == indented(text@, true),
{
    let mut writer = indent_write::fmt::IndentWriter::new("  ", String::new());
    let _ = std::fmt::Write::write_str(&mut writer, text);
    writer.into_inner()
}

/// The digit `d` as a character.
pub open spec fn digit_char(d: nat) -> char {
    (('0' as nat) + d) as char
}

/// The number `n` in decimal digits.
pub open spec fn decimal(n: nat) -> Seq<char>
    decreases n,
{
    if n < 10 {
        seq![digit_char(n)]
    } else {
        decimal(n / 10).push(digit_char(n % 10))
    }
}

/// Writes `n` in decimal digits at the end of `out`.
fn push_decimal(out: &mut String, n: usize)
    ensures
        final(out)@ == old(out)@ + decimal(n as nat),
    decreases n,
{
    if n >= 10 {
        push_decimal(out, n / 10);
    }
    let digit = ((n % 10) as u8 + 48) as char;
    out.push(digit);
    proof {
        assert('0' as nat == 48);
        if n < 10 {
            assert(old(out)@.push(digit) =~= old(out)@ + decimal(n as nat));
        } else {
            assert((old(out)@ + decimal((n / 10) as nat)).push(digit) =~= old(out)@ + decimal(
                n as nat,
            ));
        }
    }
}

/// What was expected, in words.
pub open spec fn expectation_text(e: Expectation) -> Seq<char> {
    match e {
        Expectation::ArgumentCount(expected, found) => decimal(expected as nat)
            + " arguments found "@ + decimal(found as nat),
        Expectation::Keyword(word) => seq!['"'] + word@ + seq!['"'],
        Expectation::Symbol(c) => seq!['\'', c, '\''],
        Expectation::Name => "a name"@,
        Expectation::Literal => "a literal"@,
        Expectation::Value => "a value"@,
        Expectation::Type => "a type"@,
        Expectation::StateVariable => "a state variable"@,
        Expectation::Alpha => "an ascii letter"@,
        Expectation::AlphaNumeric => "an ascii alphanumeric character"@,
        Expectation::Digit => "an ascii digit"@,
        Expectation::HexDigit => "a hexadecimal digit"@,
        Expectation::MultiSpace => "a space, tab or newline"@,
        Expectation::Something => "something"@,
    }
}

/// The name of a low-level step.
pub open spec fn scanner_text(kind: ScannerKind) -> Seq<char> {
    match kind {
        ScannerKind::Alpha => "Alpha"@,
        ScannerKind::AlphaNumeric => "AlphaNumeric"@,
        ScannerKind::Digit => "Digit"@,
        ScannerKind::HexDigit => "HexDigit"@,
        ScannerKind::MultiSpace => "MultiSpace"@,
        ScannerKind::Alt => "Alt"@,
        ScannerKind::Many1 => "Many1"@,
        ScannerKind::TakeUntil => "TakeUntil"@,
    }
}

/// The kind of a failure, in words.
pub open spec fn kind_text(kind: ErrorKind) -> Seq<char> {
    match kind {
        ErrorKind::Expected(e) => "expected "@ + expectation_text(e),
        ErrorKind::Scanner(k) => "error in "@ + scanner_text(k),
        ErrorKind::UnknownExtractor => "unknown extractor"@,
        ErrorKind::UnknownFilter => "unknown filter"@,
        ErrorKind::UnknownProducer => "unknown producer"@,
        ErrorKind::CastFromToNotAllowed(from, to) => "cast from "@ + from@ + " to "@ + to@
            + " not allowed"@,
    }
}

/// The text without the blank space at its end.
pub open spec fn trimmed_end(s: Seq<char>) -> Seq<char>
    decreases s.len(),
{
    if s.len() > 0 && is_space(s.last()) {
        trimmed_end(s.drop_last())
    } else {
        s
    }
}

/// The place of a failure as a diagnostic shows it: the first line of the
/// text after the blank space at its front, without the blank space at the
/// line's end, cut after `LOCATION_WIDTH` characters.
pub open spec fn shown(location: Seq<char>) -> Seq<char> {
    let text = spec_multispace0(location);
    let line = trimmed_end(text.take(index_of(text, '\n') as int));
    if line.len() > LOCATION_WIDTH {
        line.take(LOCATION_WIDTH as int)
    } else {
        line
    }
}

/// The diagnostic tree as text: the kind of the failure, ` at ` and its
/// place; then, where the failure has a cause, ` caused by:` and on the
/// next lines, indented, the cause, or ` caused by one of:` and, indented,
/// each of the causes on lines of its own. Siblings without a failure above
/// them stand, indented, under `one of:`.
pub open spec fn rendered(e: SpecError) -> Seq<char>
    decreases e, 0nat,
{
    match e {
        SpecError::Base { location, kind, child } => kind_text(kind) + " at "@ + shown(location)
            + match child {
            None => Seq::empty(),
            Some(cause) => match *cause {
                SpecError::Alt(siblings) => " caused by one of:\n"@ + indented(
                    rendered_from(siblings, 0),
                    true,
                ),
                other => " caused by:\n"@ + indented(rendered(other), true),
            },
        },
        SpecError::Alt(siblings) => "one of:\n"@ + indented(rendered_from(siblings, 0), true),
    }
}

/// The diagnostic trees of `siblings` from `i` on as text, with a line feed
/// between one and the next.
pub open spec fn rendered_from(siblings: Seq<SpecError>, i: int) -> Seq<char>
    decreases siblings, siblings.len() - i,
{
    if i < 0 || i >= siblings.len() {
        Seq::empty()
    } else if i == siblings.len() - 1 {
        rendered(siblings[i])
    } else {
        rendered(siblings[i]) + seq!['\n'] + rendered_from(siblings, i + 1)
    }
}

impl Expectation {
    /// What was expected, in words.
    pub fn render(&self) -> (text: String)
        ensures
            text@ == expectation_text(*self),
    {
        match self {
            Expectation::ArgumentCount(expected, found) => {
                let mut text = String::new();
                push_decimal(&mut text, *expected);
                text.append(" arguments found ");
                push_decimal(&mut text, *found);
                proof {
                    assert(text@ =~= expectation_text(*self));
                }
                text
            },
            Expectation::Keyword(word) => {
                let mut text = String::new();
                text.push('"');
                text.append(word);
                text.push('"');
                proof {
                    assert(text@ =~= expectation_text(*self));
                }
                text
            },
            Expectation::Symbol(c) => {
                let mut text = String::new();
                text.push('\'');
                text.push(*c);
                text.push('\'');
                proof {
                    assert(text@ =~= expectation_text(*self));
                }
                text
            },
            Expectation::Name => String::from_str("a name"),
            Expectation::Literal => String::from_str("a literal"),
            Expectation::Value => String::from_str("a value"),
            Expectation::Type => String::from_str("a type"),
            Expectation::StateVariable => String::from_str("a state variable"),
            Expectation::Alpha => String::from_str("an ascii letter"),
            Expectation::AlphaNumeric => String::from_str("an ascii alphanumeric character"),
            Expectation::Digit => String::from_str("an ascii digit"),
            Expectation::HexDigit => String::from_str("a hexadecimal digit"),
            Expectation::MultiSpace => String::from_str("a space, tab or newline"),
            Expectation::Something => String::from_str("something"),
        }
    }
}

impl ScannerKind {
    /// The name of the low-level step.
    pub fn render(&self) -> (text: &'static str)
        ensures
            text@ == scanner_text(*self),
    {
        match self {
            ScannerKind::Alpha => "Alpha",
            ScannerKind::AlphaNumeric => "AlphaNumeric",
            ScannerKind::Digit => "Digit",
            ScannerKind::HexDigit => "HexDigit",
            ScannerKind::MultiSpace => "MultiSpace",
            ScannerKind::Alt => "Alt",
            ScannerKind::Many1 => "Many1",
            ScannerKind::TakeUntil => "TakeUntil",
        }
    }
}

impl ErrorKind {
    /// The kind of a failure, in words.
    pub fn render(&self) -> (text: String)
        ensures
            text@ == kind_text(*self),
    {
        match self {
            ErrorKind::Expected(e) => {
                let mut text = String::from_str("expected ");
                text.append(e.render().as_str());
                text
            },
            ErrorKind::Scanner(k) => {
                let mut text = String::from_str("error in ");
                text.append(k.render());
                text
            },
            ErrorKind::UnknownExtractor => String::from_str("unknown extractor"),
            ErrorKind::UnknownFilter => String::from_str("unknown filter"),
            ErrorKind::UnknownProducer => String::from_str("unknown producer"),
            ErrorKind::CastFromToNotAllowed(from, to) => {
                let mut text = String::from_str("cast from ");
                text.append(from);
                text.append(" to ");
                text.append(to);
                text.append(" not allowed");
                text
            },
        }
    }
}

/// The text without the blank space at its end.
fn trim_end<'a>(text: &'a str) -> (r: &'a str)
    ensures
        r@ == trimmed_end(text@),
{
    let mut k: usize = text.unicode_len();
    proof {
        assert(text@.take(k as int) =~= text@);
    }
    while k > 0 && CharClass::Space.has(text.get_char(k - 1))
        invariant
            k <= text@.len(),
            trimmed_end(text@) == trimmed_end(text@.take(k as int)),
        decreases k,
    {
        proof {
            assert(text@.take(k as int).last() == text@[k - 1]);
            assert(text@.take(k as int).drop_last() =~= text@.take(k - 1));
        }
        k = k - 1;
    }
    proof {
        if k > 0 {
            assert(text@.take(k as int).last() == text@[k - 1]);
        }
    }
    text.substring_char(0, k)
}

/// The place of a failure as a diagnostic shows it.
pub fn show<'a>(location: &'a str) -> (r: &'a str)
    ensures
        r@ == shown(location@),
{
    let text = multispace0(location);
    let line = trim_end(text.substring_char(0, find(text, '\n')));
    if line.unicode_len() > LOCATION_WIDTH {
        line.substring_char(0, LOCATION_WIDTH)
    } else {
        line
    }
}

impl ParserError {
    /// The diagnostic tree as text: each failure as its kind, ` at ` and
    /// its place, and under it, indented by two spaces more, its cause or
    /// its causes.
    pub fn render(&self) -> (text: String)
        ensures
            text@ == rendered(self.deep_view()),
        decreases self, 0nat,
    {
        match self {
            ParserError::Base { location, kind, child } => {
                let mut text = kind.render();
                text.append(" at ");
                text.append(show(location.as_str()));
                match child {
                    None => {
                        proof {
                            assert(text@ =~= rendered(self.deep_view()));
                        }
                    },
                    Some(cause) => match &**cause {
                        ParserError::Alt(siblings) => {
                            text.append(" caused by one of:\n");
                            text.append(indent(render_from(siblings, 0).as_str()).as_str());
                            proof {
                                let causes = error_trees(siblings@);
                                assert(cause.deep_view() == SpecError::Alt(causes));
                                assert(self.deep_view()->Base_child == Some(
                                    Box::new(SpecError::Alt(causes)),
                                ));
                                assert(text@ =~= rendered(self.deep_view()));
                            }
                        },
                        other => {
                            text.append(" caused by:\n");
                            text.append(indent(other.render().as_str()).as_str());
                            proof {
                                assert(other is Base);
                                assert(other.deep_view() is Base);
                                assert(self.deep_view()->Base_child == Some(
                                    Box::new(other.deep_view()),
                                ));
                                assert(text@ =~= rendered(self.deep_view()));
                            }
                        },
                    },
                }
                text
            },
            ParserError::Alt(siblings) => {
                let mut text = String::from_str("one of:\n");
                text.append(indent(render_from(siblings, 0).as_str()).as_str());
                text
            },
        }
    }
}

/// The diagnostic trees of `siblings` from `i` on as text.
fn render_from(siblings: &Vec<ParserError>, i: usize) -> (text: String)
    ensures
        text@ == rendered_from(error_trees(siblings@), i as int),
    decreases siblings, siblings.len() - i,
{
    if i >= siblings.len() {
        String::new()
    } else if i == siblings.len() - 1 {
        siblings[i].render()
    } else {
        let mut text = siblings[i].render();
        text.push('\n');
        text.append(render_from(siblings, i + 1).as_str());
        proof {
            assert(text@ =~= rendered_from(error_trees(siblings@), i as int));
        }
        text
    }
}

} // verus!
