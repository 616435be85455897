//! The diagnostics that every parsing step can fail with, and the model of
//! them that the contracts speak of.
use vstd::prelude::*;

verus! {

/// What a parsing step wanted to see at the place where it failed.
#[derive(Debug, PartialEq, Eq, Clone, Copy)]
pub enum Expectation {
    /// The number of arguments that an item takes, and the number found.
    ArgumentCount(usize, usize),
    Keyword(&'static str),
    Symbol(char),
    Name,
    Literal,
    Value,
    Type,
    StateVariable,
    Alpha,
    AlphaNumeric,
    Digit,
    HexDigit,
    MultiSpace,
    Something,
}

/// The low-level step that reported a failure.
#[derive(Debug, PartialEq, Eq, Clone, Copy)]
pub enum ScannerKind {
    Alpha,
    AlphaNumeric,
    Digit,
    HexDigit,
    MultiSpace,
    /// No alternative of a choice matched.
    Alt,
    /// A repetition that needs one element found none.
    Many1,
    /// The text ended before the closing delimiter.
    TakeUntil,
}

/// What went wrong at the place of a failure.
#[derive(Debug, PartialEq, Eq, Clone, Copy)]
pub enum ErrorKind {
    Expected(Expectation),
    /// A failure of a low-level step that has no expectation of its own.
    Scanner(ScannerKind),
    UnknownExtractor,
    UnknownFilter,
    UnknownProducer,
    /// A literal of the first type stands where the second is required.
    CastFromToNotAllowed(&'static str, &'static str),
}

/// A diagnostic tree.
#[derive(Debug, PartialEq, Eq)]
pub enum ParserError {
    /// One failure at `location`, with the failure that caused it, if any.
    Base { location: String, kind: ErrorKind, child: Option<Box<ParserError>> },
    /// The failures of all the alternatives that were tried at one place.
    Alt(Vec<ParserError>),
}

/// The model of a [`ParserError`].
pub ghost enum SpecError {
    Base { location: Seq<char>, kind: ErrorKind, child: Option<Box<SpecError>> },
    Alt(Seq<SpecError>),
}

/// The model of the diagnostic tree `e`.
pub open spec fn error_tree(e: ParserError) -> SpecError
    decreases e,
{
    match e {
        ParserError::Base { location, kind, child } => SpecError::Base {
            location: location@,
            kind,
            child: match child {
                Some(inner) => Some(Box::new(error_tree(*inner))),
                None => None,
            },
        },
        ParserError::Alt(siblings) => SpecError::Alt(error_trees(siblings@)),
    }
}

/// The models of the diagnostic trees in `siblings`, in order.
pub open spec fn error_trees(siblings: Seq<ParserError>) -> Seq<SpecError>
    decreases siblings,
{
    Seq::new(
        siblings.len(),
        |i: int|
            if 0 <= i < siblings.len() {
                error_tree(siblings[i])
            } else {
                arbitrary()
            },
    )
}

impl DeepView for ParserError {
    type V = SpecError;

    open spec fn deep_view(&self) -> SpecError {
        error_tree(*self)
    }
}

/// A failure without a cause.
pub open spec fn leaf(location: Seq<char>, kind: ErrorKind) -> SpecError {
    SpecError::Base { location, kind, child: None }
}

/// A failure with the failure that caused it.
pub open spec fn caused(location: Seq<char>, kind: ErrorKind, cause: SpecError) -> SpecError {
    SpecError::Base { location, kind, child: Some(Box::new(cause)) }
}

/// The kind that a failure of the low-level step `kind` is reported with.
pub open spec fn scanner_error_kind(kind: ScannerKind) -> ErrorKind {
    match kind {
        ScannerKind::Alpha => ErrorKind::Expected(Expectation::Alpha),
        ScannerKind::AlphaNumeric => ErrorKind::Expected(Expectation::AlphaNumeric),
        ScannerKind::Digit => ErrorKind::Expected(Expectation::Digit),
        ScannerKind::HexDigit => ErrorKind::Expected(Expectation::HexDigit),
        ScannerKind::MultiSpace => ErrorKind::Expected(Expectation::MultiSpace),
        other => ErrorKind::Scanner(other),
    }
}

/// The two failures as siblings. Where one of them is a list of siblings
/// already, the other joins it at the end; of two lists, the second comes
/// first.
pub open spec fn either(first: SpecError, second: SpecError) -> SpecError {
    match (first, second) {
        (SpecError::Alt(a), SpecError::Alt(b)) => SpecError::Alt(b + a),
        (SpecError::Alt(a), e) => SpecError::Alt(a.push(e)),
        (e, SpecError::Alt(b)) => SpecError::Alt(b.push(e)),
        (e1, e2) => SpecError::Alt(seq![e1, e2]),
    }
}

/// The failure of a choice at `location` whose alternatives failed with
/// `siblings`.
pub open spec fn no_alternative(location: Seq<char>, siblings: SpecError) -> SpecError {
    caused(location, ErrorKind::Scanner(ScannerKind::Alt), siblings)
}

impl ParserError {
    /// A failure without a cause.
    pub fn leaf(location: &str, kind: ErrorKind) -> (e: ParserError)
        ensures
            e.deep_view() == leaf(location@, kind),
    {
        ParserError::Base { location: location.to_owned(), kind, child: None }
    }

    /// A failure with the failure that caused it.
    pub fn caused(location: &str, kind: ErrorKind, cause: ParserError) -> (e: ParserError)
        ensures
            e.deep_view() == caused(location@, kind, cause.deep_view()),
    {
        ParserError::Base { location: location.to_owned(), kind, child: Some(Box::new(cause)) }
    }

    /// The failure of the low-level step `kind` at `location`.
    pub fn from_error_kind(location: &str, kind: ScannerKind) -> (e: ParserError)
        ensures
            e.deep_view() == leaf(location@, scanner_error_kind(kind)),
    {
        let kind = match kind {
            ScannerKind::Alpha => ErrorKind::Expected(Expectation::Alpha),
            ScannerKind::AlphaNumeric => ErrorKind::Expected(Expectation::AlphaNumeric),
            ScannerKind::Digit => ErrorKind::Expected(Expectation::Digit),
            ScannerKind::HexDigit => ErrorKind::Expected(Expectation::HexDigit),
            ScannerKind::MultiSpace => ErrorKind::Expected(Expectation::MultiSpace),
            other => ErrorKind::Scanner(other),
        };
        ParserError::leaf(location, kind)
    }

    /// The failure of the low-level step `kind` at `location`, caused by
    /// `other`.
    pub fn append(location: &str, kind: ScannerKind, other: ParserError) -> (e: ParserError)
        ensures
            e.deep_view() == caused(location@, ErrorKind::Scanner(kind), other.deep_view()),
    {
        ParserError::caused(location, ErrorKind::Scanner(kind), other)
    }

    /// The failure to find the symbol `character` at `location`.
    pub fn from_char(location: &str, character: char) -> (e: ParserError)
        ensures
            e.deep_view() == leaf(
                location@,
                ErrorKind::Expected(Expectation::Symbol(character)),
            ),
    {
        ParserError::leaf(location, ErrorKind::Expected(Expectation::Symbol(character)))
    }

    /// Joins the failures of two alternatives.
    pub fn or(self, other: ParserError) -> (e: ParserError)
        ensures
            e.deep_view() == either(self.deep_view(), other.deep_view()),
    {
        match self {
            ParserError::Alt(mut siblings1) => match other {
                ParserError::Alt(mut siblings2) => {
                    let ghost a = siblings1@;
                    let ghost b = siblings2@;
                    siblings2.append(&mut siblings1);
                    proof {
                        assert(error_trees(b + a) =~= error_trees(b) + error_trees(a));
                    }
                    ParserError::Alt(siblings2)
                },
                err => {
                    let ghost a = siblings1@;
                    siblings1.push(err);
                    proof {
                        assert(error_trees(a.push(err)) =~= error_trees(a).push(error_tree(err)));
                    }
                    ParserError::Alt(siblings1)
                },
            },
            err => match other {
                ParserError::Alt(mut siblings) => {
                    let ghost b = siblings@;
                    siblings.push(err);
                    proof {
                        assert(error_trees(b.push(err)) =~= error_trees(b).push(error_tree(err)));
                    }
                    ParserError::Alt(siblings)
                },
                err2 => {
                    let v = vec![err, err2];
                    proof {
                        assert(error_trees(v@) =~= seq![error_tree(err), error_tree(err2)]);
                    }
                    ParserError::Alt(v)
                },
            },
        }
    }
}

/// How a parsing step failed.
#[derive(Debug, PartialEq, Eq)]
pub enum Failure {
    /// The caller may try another alternative at the same place.
    Recoverable(ParserError),
    /// The construct was recognised and is malformed: no alternative is
    /// tried.
    Fatal(ParserError),
}

/// The model of what a parsing step returns.
pub ghost enum Outcome<T> {
    /// The step took a value from the front of the text and left `rest`.
    Parsed { rest: Seq<char>, value: T },
    Recoverable(SpecError),
    Fatal(SpecError),
}

/// The model of the result `r` of a parsing step.
pub open spec fn outcome<T: DeepView>(r: Result<(&str, T), Failure>) -> Outcome<T::V> {
    match r {
        Ok((rest, value)) => Outcome::Parsed { rest: rest@, value: value.deep_view() },
        Err(Failure::Recoverable(e)) => Outcome::Recoverable(e.deep_view()),
        Err(Failure::Fatal(e)) => Outcome::Fatal(e.deep_view()),
    }
}

/// Whether what `r` left is no longer than `text`.
pub open spec fn within<T>(text: &str, r: Result<(&str, T), Failure>) -> bool {
    r matches Ok((rest, _)) ==> rest@.len() <= text@.len()
}

/// Whether what `r` left is shorter than `text`.
pub open spec fn shorter<T>(text: &str, r: Result<(&str, T), Failure>) -> bool {
    r matches Ok((rest, _)) ==> rest@.len() < text@.len()
}

impl Failure {
    /// A recoverable failure without a cause.
    pub fn recoverable(location: &str, kind: ErrorKind) -> (f: Failure)
        ensures
            f matches Failure::Recoverable(e) && e.deep_view() == leaf(location@, kind),
    {
        Failure::Recoverable(ParserError::leaf(location, kind))
    }

    /// The same failure, made fatal.
    pub fn cut(self) -> (f: Failure)
        ensures
            f matches Failure::Fatal(e) && e.deep_view() == self.error().deep_view(),
    {
        match self {
            Failure::Recoverable(e) => Failure::Fatal(e),
            Failure::Fatal(e) => Failure::Fatal(e),
        }
    }

    /// The diagnostic tree of the failure.
    pub open spec fn error(self) -> ParserError {
        match self {
            Failure::Recoverable(e) => e,
            Failure::Fatal(e) => e,
        }
    }
}

impl<T> Outcome<T> {
    /// The same outcome, with a recoverable failure made fatal.
    pub open spec fn cut(self) -> Outcome<T> {
        match self {
            Outcome::Recoverable(e) => Outcome::Fatal(e),
            other => other,
        }
    }
}

/// The first of two alternatives that does not fail recoverably. Where both
/// do, the choice fails at `s`, with both failures as the cause.
pub open spec fn or_else<T>(s: Seq<char>, first: Outcome<T>, second: Outcome<T>) -> Outcome<T> {
    match first {
        Outcome::Recoverable(e1) => match second {
            Outcome::Recoverable(e2) => Outcome::Recoverable(no_alternative(s, either(e1, e2))),
            other => other,
        },
        other => other,
    }
}

/// The first of four alternatives that does not fail recoverably. Where all
/// do, the choice fails at `s`, with the four failures as the cause.
pub open spec fn or_else4<T>(
    s: Seq<char>,
    first: Outcome<T>,
    second: Outcome<T>,
    third: Outcome<T>,
    fourth: Outcome<T>,
) -> Outcome<T> {
    match first {
        Outcome::Recoverable(e1) => match second {
            Outcome::Recoverable(e2) => match third {
                Outcome::Recoverable(e3) => match fourth {
                    Outcome::Recoverable(e4) => Outcome::Recoverable(
                        no_alternative(s, either(either(either(e1, e2), e3), e4)),
                    ),
                    other => other,
                },
                other => other,
            },
            other => other,
        },
        other => other,
    }
}

/// The result `r`, with a recoverable failure made fatal.
pub fn cut<'a, T: DeepView>(r: Result<(&'a str, T), Failure>) -> (out: Result<
    (&'a str, T),
    Failure,
>)
    ensures
        outcome(out) == outcome(r).cut(),
        r is Ok ==> out == r,
{
    match r {
        Ok(v) => Ok(v),
        Err(f) => Err(f.cut()),
    }
}

/// The failure of a choice at `location` whose alternatives failed with
/// `siblings`.
pub fn no_alternative_at(location: &str, siblings: ParserError) -> (f: Failure)
    ensures
        f matches Failure::Recoverable(e) && e.deep_view() == no_alternative(
            location@,
            siblings.deep_view(),
        ),
{
    Failure::Recoverable(ParserError::append(location, ScannerKind::Alt, siblings))
}

} // verus!
