//! The keywords of the language.
use crate::error::{
    caused, leaf, outcome, shorter, ErrorKind, Expectation, Failure, Outcome, ParserError,
    ScannerKind,
};
use crate::text::{count_run, run_length, str_equal, CharClass};
use vstd::prelude::*;
use vstd::string::*;

verus! {

/// Takes the run of letters and underscores at the front of `s`, which must
/// be `word`.
pub open spec fn spec_keyword(s: Seq<char>, word: &'static str) -> Outcome<Seq<char>> {
    let n = run_length(s, CharClass::AlphaOrUnderscore);
    let expected = ErrorKind::Expected(Expectation::Keyword(word));
    if n == 0 {
        Outcome::Recoverable(
            caused(s, expected, leaf(s, ErrorKind::Expected(Expectation::Alpha))),
        )
    } else if s.take(n as int) == word@ {
        Outcome::Parsed { rest: s.skip(n as int), value: word@ }
    } else {
        Outcome::Recoverable(leaf(s.take(n as int), expected))
    }
}

/// Takes the keyword `word` from the front of `text`. A different word fails
/// at that word; a text that starts with no letter fails at `text`, with the
/// missing letter as the cause.
pub fn keyword<'a>(text: &'a str, word: &'static str) -> (r: Result<
    (&'a str, &'static str),
    Failure,
>)
    ensures
        outcome(r) == spec_keyword(text@, word),
        shorter(text, r),
{
    let n = count_run(text, CharClass::AlphaOrUnderscore);
    let expected = ErrorKind::Expected(Expectation::Keyword(word));
    if n == 0 {
        let cause = ParserError::from_error_kind(text, ScannerKind::Alpha);
        return Err(Failure::Recoverable(ParserError::caused(text, expected, cause)));
    }
    let len = text.unicode_len();
    let found = text.substring_char(0, n);
    proof {
        assert(found@ =~= text@.take(n as int));
    }
    if str_equal(found, word) {
        let rest = text.substring_char(n, len);
        proof {
            assert(rest@ =~= text@.skip(n as int));
        }
        Ok((rest, word))
    } else {
        Err(Failure::recoverable(found, expected))
    }
}

} // verus!
