//! The filters, called by name.
use crate::cast::{spec_to_cron_expression, spec_to_u32, spec_to_value};
use crate::config::{Filter, SpecFilter};
use crate::error::{leaf, outcome, shorter, ErrorKind, Failure, Outcome, SpecError};
use crate::item::{expect_count, item_call, recover, spec_item_call, wrong_count};
use crate::literal::{Literal, SpecLiteral};
use crate::table::{Constants, SpecConstants};
use crate::text::str_equal;
use crate::value::Value;
use vstd::prelude::*;

verus! {

/// The number of arguments that the filter called `name` takes, if there is
/// such a filter.
pub open spec fn filter_arity(name: Seq<char>) -> Option<nat> {
    if name == "ValueEqualToConstFilter"@ {
        Some(1)
    } else if name == "StateEqualToConstFilter"@ {
        Some(2)
    } else if name == "StateEqualToValueFilter"@ {
        Some(1)
    } else if name == "IncrementStateByConstFilter"@ {
        Some(2)
    } else if name == "IncrementStateByValueFilter"@ {
        Some(1)
    } else if name == "DecrementStateByConstFilter"@ {
        Some(2)
    } else if name == "DecrementStateByValueFilter"@ {
        Some(1)
    } else if name == "SetStateToConstFilter"@ {
        Some(2)
    } else if name == "SetStateToValueFilter"@ {
        Some(1)
    } else if name == "FlipStateFilter"@ {
        Some(1)
    } else if name == "TimeMatchesCronExpressionFilter"@ {
        Some(1)
    } else if name == "StateMoreThanConstFilter"@ {
        Some(2)
    } else {
        None
    }
}

/// The index of a state slot: the first argument, a `u32`.
pub open spec fn state_argument(a: Seq<SpecLiteral>) -> Result<u32, SpecError> {
    spec_to_u32(a[0])
}

/// The index of a state slot and a value: a `u32`, then any literal but a
/// string. The first argument that does not convert fails.
pub open spec fn state_and_value_arguments(a: Seq<SpecLiteral>) -> Result<(u32, Value), SpecError> {
    match spec_to_u32(a[0]) {
        Ok(index) => match spec_to_value(a[1]) {
            Ok(value) => Ok((index, value)),
            Err(e) => Err(e),
        },
        Err(e) => Err(e),
    }
}

/// The filter called `name` with the arguments `a`, of which there are as
/// many as the filter takes.
pub open spec fn build_filter(name: Seq<char>, a: Seq<SpecLiteral>) -> Result<
    SpecFilter,
    SpecError,
> {
    if name == "ValueEqualToConstFilter"@ {
        match spec_to_value(a[0]) {
            Ok(v) => Ok(SpecFilter::ValueEqualToConstFilter(v)),
            Err(e) => Err(e),
        }
    } else if name == "StateEqualToConstFilter"@ {
        match state_and_value_arguments(a) {
            Ok(p) => Ok(SpecFilter::StateEqualToConstFilter(p.0, p.1)),
            Err(e) => Err(e),
        }
    } else if name == "StateEqualToValueFilter"@ {
        match state_argument(a) {
            Ok(i) => Ok(SpecFilter::StateEqualToValueFilter(i)),
            Err(e) => Err(e),
        }
    } else if name == "IncrementStateByConstFilter"@ {
        match state_and_value_arguments(a) {
            Ok(p) => Ok(SpecFilter::IncrementStateByConstFilter(p.0, p.1)),
            Err(e) => Err(e),
        }
    } else if name == "IncrementStateByValueFilter"@ {
        match state_argument(a) {
            Ok(i) => Ok(SpecFilter::IncrementStateByValueFilter(i)),
            Err(e) => Err(e),
        }
    } else if name == "DecrementStateByConstFilter"@ {
        match state_and_value_arguments(a) {
            Ok(p) => Ok(SpecFilter::DecrementStateByConstFilter(p.0, p.1)),
            Err(e) => Err(e),
        }
    } else if name == "DecrementStateByValueFilter"@ {
        match state_argument(a) {
            Ok(i) => Ok(SpecFilter::DecrementStateByValueFilter(i)),
            Err(e) => Err(e),
        }
    } else if name == "SetStateToConstFilter"@ {
        match state_and_value_arguments(a) {
            Ok(p) => Ok(SpecFilter::SetStateToConstFilter(p.0, p.1)),
            Err(e) => Err(e),
        }
    } else if name == "SetStateToValueFilter"@ {
        match state_argument(a) {
            Ok(i) => Ok(SpecFilter::SetStateToValueFilter(i)),
            Err(e) => Err(e),
        }
    } else if name == "FlipStateFilter"@ {
        match state_argument(a) {
            Ok(i) => Ok(SpecFilter::FlipStateFilter(i)),
            Err(e) => Err(e),
        }
    } else if name == "TimeMatchesCronExpressionFilter"@ {
        match spec_to_cron_expression(a[0]) {
            Ok(c) => Ok(SpecFilter::TimeMatchesCronExpressionFilter(c)),
            Err(e) => Err(e),
        }
    } else if name == "StateMoreThanConstFilter"@ {
        match state_and_value_arguments(a) {
            Ok(p) => Ok(SpecFilter::StateMoreThanConstFilter(p.0, p.1)),
            Err(e) => Err(e),
        }
    } else {
        Err(leaf(name, ErrorKind::UnknownFilter))
    }
}

/// The call of a filter. A name that no filter has fails at the name; a call
/// with another number of arguments than the filter takes fails at what
/// follows the call; an argument of another type than the parameter's fails
/// as a conversion that is not allowed.
pub open spec fn spec_filter(constants: SpecConstants, s: Seq<char>) -> Outcome<SpecFilter> {
    match spec_item_call(constants, s, false) {
        Outcome::Parsed { rest, value } => match filter_arity(value.0) {
            Some(arity) => if value.1.len() != arity {
                Outcome::Recoverable(wrong_count(rest, arity, value.1.len()))
            } else {
                match build_filter(value.0, value.1) {
                    Ok(filter) => Outcome::Parsed { rest, value: filter },
                    Err(e) => Outcome::Recoverable(e),
                }
            },
            None => Outcome::Recoverable(leaf(value.0, ErrorKind::UnknownFilter)),
        },
        Outcome::Recoverable(e) => Outcome::Recoverable(e),
        Outcome::Fatal(e) => Outcome::Fatal(e),
    }
}

/// Looks up the number of arguments that the filter called `name` takes.
pub fn find_filter(name: &str) -> (arity: Option<usize>)
    ensures
        match arity {
            Some(n) => filter_arity(name@) == Some(n as nat),
            None => filter_arity(name@) is None,
        },
{
    if str_equal(name, "ValueEqualToConstFilter") {
        Some(1)
    } else if str_equal(name, "StateEqualToConstFilter") {
        Some(2)
    } else if str_equal(name, "StateEqualToValueFilter") {
        Some(1)
    } else if str_equal(name, "IncrementStateByConstFilter") {
        Some(2)
    } else if str_equal(name, "IncrementStateByValueFilter") {
        Some(1)
    } else if str_equal(name, "DecrementStateByConstFilter") {
        Some(2)
    } else if str_equal(name, "DecrementStateByValueFilter") {
        Some(1)
    } else if str_equal(name, "SetStateToConstFilter") {
        Some(2)
    } else if str_equal(name, "SetStateToValueFilter") {
        Some(1)
    } else if str_equal(name, "FlipStateFilter") {
        Some(1)
    } else if str_equal(name, "TimeMatchesCronExpressionFilter") {
        Some(1)
    } else if str_equal(name, "StateMoreThanConstFilter") {
        Some(2)
    } else {
        None
    }
}

/// Converts the two arguments of a filter on a state slot and a value.
fn state_and_value(arguments: &Vec<Literal>) -> (r: Result<(u32, Value), Failure>)
    requires
        arguments@.len() == 2,
    ensures
        match state_and_value_arguments(arguments.deep_view()) {
            Ok(p) => r == Ok::<(u32, Value), Failure>(p),
            Err(e) => r matches Err(Failure::Recoverable(f)) && f.deep_view() == e,
        },
{
    let index = recover(arguments[0].to_u32())?;
    let value = recover(arguments[1].to_value())?;
    Ok((index, value))
}

/// Makes the filter called `name` of `arguments`.
fn make_filter(name: &str, arguments: &Vec<Literal>) -> (r: Result<Filter, Failure>)
    requires
        filter_arity(name@) == Some(arguments@.len()),
    ensures
        match build_filter(name@, arguments.deep_view()) {
            Ok(filter) => r matches Ok(made) && made.deep_view() == filter,
            Err(e) => r matches Err(Failure::Recoverable(f)) && f.deep_view() == e,
        },
{
    if str_equal(name, "ValueEqualToConstFilter") {
        Ok(Filter::ValueEqualToConstFilter(recover(arguments[0].to_value())?))
    } else if str_equal(name, "StateEqualToConstFilter") {
        let (index, value) = state_and_value(arguments)?;
        Ok(Filter::StateEqualToConstFilter(index, value))
    } else if str_equal(name, "StateEqualToValueFilter") {
        Ok(Filter::StateEqualToValueFilter(recover(arguments[0].to_u32())?))
    } else if str_equal(name, "IncrementStateByConstFilter") {
        let (index, value) = state_and_value(arguments)?;
        Ok(Filter::IncrementStateByConstFilter(index, value))
    } else if str_equal(name, "IncrementStateByValueFilter") {
        Ok(Filter::IncrementStateByValueFilter(recover(arguments[0].to_u32())?))
    } else if str_equal(name, "DecrementStateByConstFilter") {
        let (index, value) = state_and_value(arguments)?;
        Ok(Filter::DecrementStateByConstFilter(index, value))
    } else if str_equal(name, "DecrementStateByValueFilter") {
        Ok(Filter::DecrementStateByValueFilter(recover(arguments[0].to_u32())?))
    } else if str_equal(name, "SetStateToConstFilter") {
        let (index, value) = state_and_value(arguments)?;
        Ok(Filter::SetStateToConstFilter(index, value))
    } else if str_equal(name, "SetStateToValueFilter") {
        Ok(Filter::SetStateToValueFilter(recover(arguments[0].to_u32())?))
    } else if str_equal(name, "FlipStateFilter") {
        Ok(Filter::FlipStateFilter(recover(arguments[0].to_u32())?))
    } else if str_equal(name, "TimeMatchesCronExpressionFilter") {
        Ok(Filter::TimeMatchesCronExpressionFilter(recover(arguments[0].to_cron_expression())?))
    } else if str_equal(name, "StateMoreThanConstFilter") {
        let (index, value) = state_and_value(arguments)?;
        Ok(Filter::StateMoreThanConstFilter(index, value))
    } else {
        Err(Failure::recoverable(name, ErrorKind::UnknownFilter))
    }
}

/// Takes the call of a filter, `Name(argument, ...);`, from the front of
/// `text`.
pub fn filter<'a>(constants: &Constants, text: &'a str) -> (r: Result<(&'a str, Filter), Failure>)
    ensures
        outcome(r) == spec_filter(constants@, text@),
        shorter(text, r),
{
    let (rest, (name, arguments)) = item_call(constants, text, false)?;
    match find_filter(name) {
        Some(arity) => {
            expect_count(rest, arity, arguments.len())?;
            let made = make_filter(name, &arguments)?;
            Ok((rest, made))
        },
        None => Err(Failure::recoverable(name, ErrorKind::UnknownFilter)),
    }
}

} // verus!
