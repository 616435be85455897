//! `const <name> = <literal>;` declares a constant.
use crate::error::{outcome, shorter, Failure, Outcome};
use crate::keyword::{keyword, spec_keyword};
use crate::literal::{Literal, SpecLiteral};
use crate::statement::let_statement::{binding, spec_binding};
use crate::statement::match_statement::{terminate, terminated};
use vstd::prelude::*;

verus! {

/// `const <name> = <literal>;`. A failure before the end of the literal is
/// recoverable; the want of the `;` after it is fatal, and fails at what
/// follows the literal.
pub open spec fn spec_const_statement(s: Seq<char>) -> Outcome<(Seq<char>, SpecLiteral)> {
    terminated(
        match spec_keyword(s, "const") {
            Outcome::Parsed { rest, value } => spec_binding(rest, false),
            Outcome::Recoverable(e) => Outcome::Recoverable(e),
            Outcome::Fatal(e) => Outcome::Fatal(e),
        },
    )
}

/// Takes the declaration of a constant from the front of `text`, and hands
/// out its name and its value. The name is made of letters and underscores.
/// A failure before the end of the literal is recoverable; a missing `;`
/// fails fatally at what follows the literal, as a `;` that was expected.
pub fn const_statement<'a>(text: &'a str) -> (r: Result<(&'a str, (&'a str, Literal)), Failure>)
    ensures
        outcome(r) == spec_const_statement(text@),
        shorter(text, r),
{
    let (rest, _) = keyword(text, "const")?;
    terminate(binding(rest, false))
}

} // verus!
