//! The scanners for names, numbers and blank space, the arguments of a
//! call, and the compiler's entry.
use crate::comment::{remove_comments, strip_comments};
use crate::config::Config;
use crate::cron::converted;
use crate::error::{
    caused, leaf, outcome, scanner_error_kind, shorter, within, ErrorKind, Expectation, Failure,
    Outcome, ParserError, ScannerKind, SpecError,
};
use crate::literal::{literal_or_constant, spec_literal_or_constant, Literal, SpecLiteral};
use crate::program::{seeded, spec_parse, spec_statements, statement, EventCodes, Program};
use crate::progress::lemma_argument_advances;
use crate::symbol::{spec_symbol, symbol, CLOSE_PARENTHESIS, COMMA, OPEN_PARENTHESIS};
use crate::table::{Constants, SpecConstants};
use crate::text::{count_run, is_alpha, lemma_run_length, run_length, CharClass};
use vstd::prelude::*;
use vstd::string::*;

verus! {

impl CharClass {
    /// The low-level step that reports a text with no character of the class
    /// at its front.
    pub open spec fn scanner_kind(self) -> ScannerKind {
        match self {
            CharClass::Alpha => ScannerKind::Alpha,
            CharClass::AlphaOrUnderscore => ScannerKind::Alpha,
            CharClass::AlphaNumeric => ScannerKind::AlphaNumeric,
            CharClass::Word => ScannerKind::Alpha,
            CharClass::Hex => ScannerKind::HexDigit,
            CharClass::Decimal => ScannerKind::Digit,
            CharClass::Space => ScannerKind::MultiSpace,
        }
    }

    /// The low-level step that reports a text with no character of the class
    /// at its front.
    pub fn reported_as(self) -> (kind: ScannerKind)
        ensures
            kind == self.scanner_kind(),
    {
        match self {
            CharClass::Alpha => ScannerKind::Alpha,
            CharClass::AlphaOrUnderscore => ScannerKind::Alpha,
            CharClass::AlphaNumeric => ScannerKind::AlphaNumeric,
            CharClass::Word => ScannerKind::Alpha,
            CharClass::Hex => ScannerKind::HexDigit,
            CharClass::Decimal => ScannerKind::Digit,
            CharClass::Space => ScannerKind::MultiSpace,
        }
    }
}

/// Whether every character of `s` is of `class`.
pub open spec fn all_of(s: Seq<char>, class: CharClass) -> bool {
    forall|i: int| 0 <= i < s.len() ==> class.contains(#[trigger] s[i])
}

/// Takes the longest run of `class` from the front of `s`, which may be
/// empty.
pub open spec fn spec_scan0(s: Seq<char>, class: CharClass) -> Outcome<Seq<char>> {
    let n = run_length(s, class) as int;
    Outcome::Parsed { rest: s.skip(n), value: s.take(n) }
}

/// Takes the longest run of `class` from the front of `s`, which must hold
/// one character at least.
pub open spec fn spec_scan1(s: Seq<char>, class: CharClass) -> Outcome<Seq<char>> {
    if run_length(s, class) == 0 {
        Outcome::Recoverable(leaf(s, scanner_error_kind(class.scanner_kind())))
    } else {
        spec_scan0(s, class)
    }
}

/// Takes the longest run of `class` from the front of `text`; the run may be
/// empty, so this always succeeds.
pub fn scan0<'a>(text: &'a str, class: CharClass) -> (r: (&'a str, &'a str))
    ensures
        r.0@ == text@.skip(run_length(text@, class) as int),
        r.1@ == text@.take(run_length(text@, class) as int),
        r.0@.len() <= text@.len(),
        all_of(r.1@, class),
{
    let n = count_run(text, class);
    let len = text.unicode_len();
    let run = text.substring_char(0, n);
    let rest = text.substring_char(n, len);
    proof {
        lemma_run_length(text@, class);
        assert(run@ =~= text@.take(n as int));
        assert(rest@ =~= text@.skip(n as int));
    }
    (rest, run)
}

/// Takes the longest run of `class` from the front of `text`, and fails at
/// `text` where that run is empty.
pub fn scan1<'a>(text: &'a str, class: CharClass) -> (r: Result<(&'a str, &'a str), Failure>)
    ensures
        outcome(r) == spec_scan1(text@, class),
        shorter(text, r),
        r matches Ok((_, run)) ==> all_of(run@, class) && run@.len() > 0,
{
    let n = count_run(text, class);
    if n == 0 {
        Err(Failure::Recoverable(ParserError::from_error_kind(text, class.reported_as())))
    } else {
        let (rest, run) = scan0(text, class);
        Ok((rest, run))
    }
}

/// Blank space, which may be missing.
pub open spec fn spec_multispace0(s: Seq<char>) -> Seq<char> {
    s.skip(run_length(s, CharClass::Space) as int)
}

/// Skips the blank space at the front of `text`.
pub fn multispace0<'a>(text: &'a str) -> (rest: &'a str)
    ensures
        rest@ == spec_multispace0(text@),
        rest@.len() <= text@.len(),
{
    scan0(text, CharClass::Space).0
}

/// Blank space, one character at least.
pub open spec fn spec_multispace1(s: Seq<char>) -> Outcome<Seq<char>> {
    spec_scan1(s, CharClass::Space)
}

/// Takes the blank space at the front of `text`, and fails where there is
/// none.
pub fn multispace1<'a>(text: &'a str) -> (r: Result<(&'a str, &'a str), Failure>)
    ensures
        outcome(r) == spec_multispace1(text@),
        shorter(text, r),
{
    scan1(text, CharClass::Space)
}

/// A run of letters and underscores.
pub open spec fn spec_alpha_or_underscore1(s: Seq<char>) -> Outcome<Seq<char>> {
    spec_scan1(s, CharClass::AlphaOrUnderscore)
}

/// Takes the run of letters and underscores at the front of `text`.
pub fn alpha_or_underscore1<'a>(text: &'a str) -> (r: Result<(&'a str, &'a str), Failure>)
    ensures
        outcome(r) == spec_alpha_or_underscore1(text@),
        shorter(text, r),
{
    scan1(text, CharClass::AlphaOrUnderscore)
}

/// A run of letters and decimal digits.
pub open spec fn spec_alphanumeric1(s: Seq<char>) -> Outcome<Seq<char>> {
    spec_scan1(s, CharClass::AlphaNumeric)
}

/// Takes the run of letters and decimal digits at the front of `text`.
pub fn alphanumeric1<'a>(text: &'a str) -> (r: Result<(&'a str, &'a str), Failure>)
    ensures
        outcome(r) == spec_alphanumeric1(text@),
        shorter(text, r),
{
    scan1(text, CharClass::AlphaNumeric)
}

/// A run of hexadecimal digits and the letter `x`.
pub open spec fn spec_hex1(s: Seq<char>) -> Outcome<Seq<char>> {
    spec_scan1(s, CharClass::Hex)
}

/// Takes the run of hexadecimal digits and `x` at the front of `text`.
pub fn hex1<'a>(text: &'a str) -> (r: Result<(&'a str, &'a str), Failure>)
    ensures
        outcome(r) == spec_hex1(text@),
        shorter(text, r),
        r matches Ok((_, run)) ==> all_of(run@, CharClass::Hex) && run@.len() > 0,
{
    scan1(text, CharClass::Hex)
}

/// A run of decimal digits and `-`.
pub open spec fn spec_dec1(s: Seq<char>) -> Outcome<Seq<char>> {
    spec_scan1(s, CharClass::Decimal)
}

/// Takes the run of decimal digits and `-` at the front of `text`.
pub fn dec1<'a>(text: &'a str) -> (r: Result<(&'a str, &'a str), Failure>)
    ensures
        outcome(r) == spec_dec1(text@),
        shorter(text, r),
        r matches Ok((_, run)) ==> all_of(run@, CharClass::Decimal) && run@.len() > 0,
{
    scan1(text, CharClass::Decimal)
}

/// The failure of a text that does not start with a name.
pub open spec fn not_a_name(s: Seq<char>) -> SpecError {
    caused(
        s,
        ErrorKind::Expected(Expectation::Name),
        leaf(s, ErrorKind::Expected(Expectation::Alpha)),
    )
}

/// A name: a run of letters, decimal digits and underscores that starts with
/// a letter.
pub open spec fn spec_name(s: Seq<char>) -> Outcome<Seq<char>> {
    if s.len() > 0 && is_alpha(s[0]) {
        spec_scan0(s, CharClass::Word)
    } else {
        Outcome::Recoverable(not_a_name(s))
    }
}

/// Takes the name at the front of `text`. A text that starts with anything
/// but a letter fails at `text`, with the missing letter as the cause.
pub fn name_parser<'a>(text: &'a str) -> (r: Result<(&'a str, &'a str), Failure>)
    ensures
        outcome(r) == spec_name(text@),
        shorter(text, r),
{
    let len = text.unicode_len();
    if len > 0 && CharClass::Alpha.has(text.get_char(0)) {
        let (rest, name) = scan0(text, CharClass::Word);
        proof {
            lemma_run_length(text@, CharClass::Word);
            assert(CharClass::Word.contains(text@[0]));
            assert(run_length(text@, CharClass::Word) > 0);
        }
        Ok((rest, name))
    } else {
        let cause = ParserError::from_error_kind(text, ScannerKind::Alpha);
        Err(
            Failure::Recoverable(
                ParserError::caused(text, ErrorKind::Expected(Expectation::Name), cause),
            ),
        )
    }
}

/// One argument of a call: a constant or a literal, with blank space
/// before it and after it.
pub open spec fn spec_argument(constants: SpecConstants, s: Seq<char>) -> Outcome<SpecLiteral> {
    match spec_literal_or_constant(constants, spec_multispace0(s)) {
        Outcome::Parsed { rest, value } => Outcome::Parsed { rest: spec_multispace0(rest), value },
        other => other,
    }
}

/// The same outcome with `front` before the values that were taken.
pub open spec fn after<T>(front: Seq<T>, tail: Outcome<Seq<T>>) -> Outcome<Seq<T>> {
    match tail {
        Outcome::Parsed { rest, value } => Outcome::Parsed { rest, value: front + value },
        other => other,
    }
}

/// The arguments of a call after the first: each is a comma and an argument.
/// The list ends before the first comma that no argument follows.
pub open spec fn spec_more_arguments(constants: SpecConstants, s: Seq<char>) -> Outcome<
    Seq<SpecLiteral>,
>
    decreases s.len(),
{
    let end = Outcome::Parsed { rest: s, value: Seq::empty() };
    proof {
        if s.len() > 0 {
            lemma_argument_advances(constants, s.skip(1));
        }
    }
    match spec_symbol(s, COMMA) {
        Outcome::Parsed { rest, value } => match spec_argument(constants, rest) {
            Outcome::Parsed { rest, value } => after(
                seq![value],
                spec_more_arguments(constants, rest),
            ),
            Outcome::Recoverable(_) => end,
            Outcome::Fatal(e) => Outcome::Fatal(e),
        },
        Outcome::Recoverable(_) => end,
        Outcome::Fatal(e) => Outcome::Fatal(e),
    }
}

/// The arguments of a call, without the parentheses: none, or an argument
/// and those after it.
pub open spec fn spec_argument_list(constants: SpecConstants, s: Seq<char>) -> Outcome<
    Seq<SpecLiteral>,
> {
    match spec_argument(constants, s) {
        Outcome::Parsed { rest, value } => after(seq![value], spec_more_arguments(constants, rest)),
        Outcome::Recoverable(_) => Outcome::Parsed { rest: s, value: Seq::empty() },
        Outcome::Fatal(e) => Outcome::Fatal(e),
    }
}

/// The arguments of a call in parentheses, each a constant or a literal,
/// with commas between them.
pub open spec fn spec_arguments(constants: SpecConstants, s: Seq<char>) -> Outcome<
    Seq<SpecLiteral>,
> {
    match spec_symbol(s, OPEN_PARENTHESIS) {
        Outcome::Parsed { rest, value } => match spec_argument_list(
            constants,
            spec_multispace0(rest),
        ) {
            Outcome::Parsed { rest, value: arguments } => match spec_symbol(
                rest,
                CLOSE_PARENTHESIS,
            ) {
                Outcome::Parsed { rest, value } => Outcome::Parsed { rest, value: arguments },
                Outcome::Recoverable(e) => Outcome::Recoverable(e),
                Outcome::Fatal(e) => Outcome::Fatal(e),
            },
            other => other,
        },
        Outcome::Recoverable(e) => Outcome::Recoverable(e),
        Outcome::Fatal(e) => Outcome::Fatal(e),
    }
}

/// Takes one argument of a call from the front of `text`.
pub fn argument<'a>(constants: &Constants, text: &'a str) -> (r: Result<
    (&'a str, Literal),
    Failure,
>)
    ensures
        outcome(r) == spec_argument(constants@, text@),
        shorter(text, r),
{
    let (rest, value) = literal_or_constant(constants, multispace0(text))?;
    Ok((multispace0(rest), value))
}

/// Takes the arguments of a call after the first from the front of `text`.
fn more_arguments<'a>(constants: &Constants, text: &'a str, first: Literal) -> (r: Result<
    (&'a str, Vec<Literal>),
    Failure,
>)
    ensures
        outcome(r) == after(seq![first.deep_view()], spec_more_arguments(constants@, text@)),
        within(text, r),
{
    let mut arguments: Vec<Literal> = Vec::new();
    arguments.push(first);
    let mut rest = text;
    proof {
        assert(arguments.deep_view() =~= seq![first.deep_view()]);
    }
    loop
        invariant
            rest@.len() <= text@.len(),
            after(seq![first.deep_view()], spec_more_arguments(constants@, text@)) == after(
                arguments.deep_view(),
                spec_more_arguments(constants@, rest@),
            ),
        decreases rest@.len(),
    {
        let ghost front = arguments.deep_view();
        let next = match symbol(rest, COMMA) {
            Ok((next, _)) => next,
            Err(Failure::Recoverable(_)) => {
                proof {
                    assert(front + Seq::<SpecLiteral>::empty() =~= front);
                }
                return Ok((rest, arguments));
            },
            Err(Failure::Fatal(e)) => return Err(Failure::Fatal(e)),
        };
        match argument(constants, next) {
            Ok((next, value)) => {
                arguments.push(value);
                proof {
                    let tail = spec_more_arguments(constants@, next@);
                    assert(arguments.deep_view() =~= front.push(value.deep_view()));
                    assert(after(front, after(seq![value.deep_view()], tail)) == after(
                        arguments.deep_view(),
                        tail,
                    )) by {
                        if let Outcome::Parsed { rest, value: more } = tail {
                            assert(front + (seq![value.deep_view()] + more)
                                =~= arguments.deep_view() + more);
                        }
                    }
                }
                rest = next;
            },
            Err(Failure::Recoverable(_)) => {
                proof {
                    assert(front + Seq::<SpecLiteral>::empty() =~= front);
                }
                return Ok((rest, arguments));
            },
            Err(Failure::Fatal(e)) => return Err(Failure::Fatal(e)),
        }
    }
}

/// Takes the arguments of a call, in parentheses, from the front of `text`.
/// Each argument is the name of a constant in `constants` or a literal.
/// Where something else stands in the place of an argument, the list ends
/// before it, and the call fails for want of the closing parenthesis.
pub fn argument_or_constant0<'a>(constants: &Constants, text: &'a str) -> (r: Result<
    (&'a str, Vec<Literal>),
    Failure,
>)
    ensures
        outcome(r) == spec_arguments(constants@, text@),
        shorter(text, r),
{
    let (rest, _) = symbol(text, OPEN_PARENTHESIS)?;
    let rest = multispace0(rest);
    let (rest, arguments) = match argument(constants, rest) {
        Ok((next, first)) => more_arguments(constants, next, first)?,
        Err(Failure::Recoverable(_)) => {
            let none: Vec<Literal> = Vec::new();
            proof {
                assert(none.deep_view() =~= Seq::empty());
            }
            (rest, none)
        },
        Err(Failure::Fatal(e)) => return Err(Failure::Fatal(e)),
    };
    let (rest, _) = symbol(rest, CLOSE_PARENTHESIS)?;
    Ok((rest, arguments))
}

/// Takes the arguments of a call, in parentheses, from the front of `text`.
/// Each argument is a literal.
pub fn argument0<'a>(text: &'a str) -> (r: Result<(&'a str, Vec<Literal>), Failure>)
    ensures
        outcome(r) == spec_arguments(Map::empty(), text@),
        shorter(text, r),
{
    let constants = Constants::new();
    argument_or_constant0(&constants, text)
}

/// The compiler of the rule language.
pub struct Parser {}

impl Parser {
    /// The table of constants that a program starts with: the code of each
    /// event of the protocol under its name.
    pub fn prepare_constants(codes: &EventCodes) -> (constants: Constants)
        ensures
            constants@ == seeded(*codes),
    {
        let mut constants = Constants::new();
        constants.insert("BOOTLOADER_HELLO_EVENT_CODE", Literal::U16(codes.bootloader_hello));
        constants.insert("PROGRAMMER_HELLO_EVENT_CODE", Literal::U16(codes.programmer_hello));
        constants.insert(
            "PROGRAMMER_START_FIRMWARE_UPGRADE_EVENT_CODE",
            Literal::U16(codes.programmer_start_firmware_upgrade),
        );
        constants.insert("ACK_EVENT_CODE", Literal::U16(codes.ack));
        constants.insert("DATA_EVENT_CODE", Literal::U16(codes.data));
        constants.insert("CONFIGURATOR_HELLO_EVENT_CODE", Literal::U16(codes.configurator_hello));
        constants.insert(
            "BCM_CHANGE_BRIGHTNESS_EVENT_CODE",
            Literal::U16(codes.bcm_change_brightness),
        );
        constants.insert("BUTTON_PRESSED_EVENT_CODE", Literal::U16(codes.button_pressed));
        constants.insert("BUTTON_RELEASED_EVENT_CODE", Literal::U16(codes.button_released));
        constants.insert(
            "INTERNAL_SYSTEM_TICK_EVENT_CODE",
            Literal::U16(codes.internal_system_tick),
        );
        constants.insert(
            "PROGRAMMER_START_CONFIG_UPGRADE_EVENT_CODE",
            Literal::U16(codes.programmer_start_config_upgrade),
        );
        constants.insert(
            "PROGRAMMER_SET_DEVICE_ADDRESS_EVENT_CODE",
            Literal::U16(codes.programmer_set_device_address),
        );
        constants.insert("MESSAGE_EVENT_CODE", Literal::U16(codes.message));
        constants
    }

    /// The text without its comments.
    pub fn remove_comments(text: &str) -> (stripped: String)
        ensures
            stripped@ == strip_comments(text@),
            stripped@.len() <= text@.len() + 1,
    {
        remove_comments(text)
    }

    /// Compiles the program `text` into its configuration. The statements
    /// are `peripheral`, `let`, `const`, `send`, `do` and `set`; comments
    /// run from `//` to the end of the line. The constants of the program
    /// are those of `codes` and those that it declares. The rules come out
    /// in the order of the text, the initial state in the order of the
    /// `let` statements. A program that cannot be compiled gives its first
    /// failure, and no configuration.
    pub fn parse(text: &str, codes: &EventCodes) -> (r: Result<Config, ParserError>)
        ensures
            converted(r) == spec_parse(text@, *codes),
    {
        let stripped = remove_comments(text);
        let tick_code = codes.internal_system_tick;
        let mut program = Program::new(Parser::prepare_constants(codes));
        let mut rest = stripped.as_str();
        loop
            invariant
                spec_parse(text@, *codes) == spec_statements(
                    tick_code,
                    rest@,
                    program.deep_view(),
                ),
            decreases rest@.len(),
        {
            if rest.unicode_len() == 0 {
                return Ok(program.config);
            }
            match statement(&program.constants, &program.variables, tick_code, multispace0(rest)) {
                Ok((next, found)) => {
                    program.declare(found)?;
                    rest = next;
                },
                Err(Failure::Fatal(e)) => return Err(e),
                Err(Failure::Recoverable(siblings)) => match multispace1(rest) {
                    Ok((next, _)) => {
                        rest = next;
                    },
                    Err(_) => return Err(
                        ParserError::caused(
                            rest,
                            ErrorKind::Expected(Expectation::Something),
                            siblings,
                        ),
                    ),
                },
            }
        }
    }
}

} // verus!
