//! The single-character symbols of the language.
use crate::error::{leaf, outcome, shorter, ErrorKind, Expectation, Failure, Outcome, ParserError};
use vstd::prelude::*;
use vstd::string::*;

verus! {

/// Ends a statement and the call of an item.
pub const SEMICOLON: char = ';';

/// Stands between the digits of a number and its type.
pub const TILDE: char = '~';

/// Stands between the arguments of a call.
pub const COMMA: char = ',';

/// Opens the arguments of a call.
pub const OPEN_PARENTHESIS: char = '(';

/// Closes the arguments of a call.
pub const CLOSE_PARENTHESIS: char = ')';

/// Opens a block.
pub const OPEN_BRACE: char = '{';

/// Closes a block.
pub const CLOSE_BRACE: char = '}';

/// Stands between the name of a declaration and its value.
pub const EQUAL_SIGN: char = '=';

/// Opens and closes a string.
pub const DOUBLE_QUOTE: char = '"';

/// Starts a colour.
pub const HASHTAG: char = '#';

/// Takes the character `symbol` from the front of `s`.
pub open spec fn spec_symbol(s: Seq<char>, symbol: char) -> Outcome<char> {
    if s.len() > 0 && s[0] == symbol {
        Outcome::Parsed { rest: s.skip(1), value: symbol }
    } else {
        Outcome::Recoverable(leaf(s, ErrorKind::Expected(Expectation::Symbol(symbol))))
    }
}

/// Takes the character `wanted` from the front of `text`, or fails at `text`
/// with the symbol that was expected.
pub fn symbol<'a>(text: &'a str, wanted: char) -> (r: Result<(&'a str, char), Failure>)
    ensures
        outcome(r) == spec_symbol(text@, wanted),
        shorter(text, r),
{
    let len = text.unicode_len();
    if len > 0 && text.get_char(0) == wanted {
        let rest = text.substring_char(1, len);
        proof {
            assert(rest@ =~= text@.skip(1));
        }
        Ok((rest, wanted))
    } else {
        Err(Failure::Recoverable(ParserError::from_char(text, wanted)))
    }
}

} // verus!
