//! The producers, called by name.
use crate::cast::{
    spec_to_bcm_value, spec_to_message_value, spec_to_relay_value, spec_to_u16, spec_to_u32,
    spec_to_u8,
};
use crate::config::Producer;
use crate::error::{leaf, outcome, shorter, ErrorKind, Failure, Outcome, SpecError};
use crate::item::{expect_count, item_call, recover, spec_item_call, wrong_count};
use crate::literal::{Literal, SpecLiteral};
use crate::table::{Constants, SpecConstants};
use crate::text::str_equal;
use vstd::prelude::*;

verus! {

/// The number of arguments that the producer called `name` takes, if there
/// is such a producer.
pub open spec fn producer_arity(name: Seq<char>) -> Option<nat> {
    if name == "NoneProducer"@ {
        Some(0)
    } else if name == "PacketProducer"@ {
        Some(1)
    } else if name == "MessageProducer"@ {
        Some(3)
    } else if name == "BcmChangeBrightnessProducer"@ {
        Some(3)
    } else if name == "BcmChangeBrightnessStateProducer"@ {
        Some(3)
    } else if name == "BcmAnimateBrightnessProducer"@ {
        Some(4)
    } else if name == "BcmAnimateBrightnessStateProducer"@ {
        Some(4)
    } else if name == "RelaySetValueProducer"@ {
        Some(3)
    } else {
        None
    }
}

/// The address of a receiver and the index of a channel: a `u16`, then a
/// `u8`. The first argument that does not convert fails.
pub open spec fn channel_arguments(a: Seq<SpecLiteral>) -> Result<(u16, u8), SpecError> {
    match spec_to_u16(a[0]) {
        Ok(address) => match spec_to_u8(a[1]) {
            Ok(index) => Ok((address, index)),
            Err(e) => Err(e),
        },
        Err(e) => Err(e),
    }
}

/// The address of a receiver, the index of a channel and a `u32`.
pub open spec fn channel_and_number_arguments(a: Seq<SpecLiteral>) -> Result<
    (u16, u8, u32),
    SpecError,
> {
    match channel_arguments(a) {
        Ok(c) => match spec_to_u32(a[2]) {
            Ok(number) => Ok((c.0, c.1, number)),
            Err(e) => Err(e),
        },
        Err(e) => Err(e),
    }
}

/// The producer called `name` with the arguments `a`, of which there are as
/// many as the producer takes. The arguments convert in order, and the first
/// that does not convert fails.
pub open spec fn build_producer(name: Seq<char>, a: Seq<SpecLiteral>) -> Result<
    Producer,
    SpecError,
> {
    if name == "NoneProducer"@ {
        Ok(Producer::NoneProducer)
    } else if name == "PacketProducer"@ {
        match spec_to_u16(a[0]) {
            Ok(address) => Ok(Producer::PacketProducer(address)),
            Err(e) => Err(e),
        }
    } else if name == "MessageProducer"@ {
        match spec_to_u16(a[0]) {
            Ok(address) => match spec_to_u16(a[1]) {
                Ok(code) => match spec_to_message_value(a[2]) {
                    Ok(value) => Ok(Producer::MessageProducer(address, code, value)),
                    Err(e) => Err(e),
                },
                Err(e) => Err(e),
            },
            Err(e) => Err(e),
        }
    } else if name == "BcmChangeBrightnessProducer"@ {
        match channel_arguments(a) {
            Ok(c) => match spec_to_bcm_value(a[2]) {
                Ok(value) => Ok(Producer::BcmChangeBrightnessProducer(c.0, c.1, value)),
                Err(e) => Err(e),
            },
            Err(e) => Err(e),
        }
    } else if name == "BcmChangeBrightnessStateProducer"@ {
        match channel_and_number_arguments(a) {
            Ok(c) => Ok(Producer::BcmChangeBrightnessStateProducer(c.0, c.1, c.2)),
            Err(e) => Err(e),
        }
    } else if name == "BcmAnimateBrightnessProducer"@ {
        match channel_and_number_arguments(a) {
            Ok(c) => match spec_to_bcm_value(a[3]) {
                Ok(value) => Ok(Producer::BcmAnimateBrightnessProducer(c.0, c.1, c.2, value)),
                Err(e) => Err(e),
            },
            Err(e) => Err(e),
        }
    } else if name == "BcmAnimateBrightnessStateProducer"@ {
        match channel_and_number_arguments(a) {
            Ok(c) => match spec_to_u32(a[3]) {
                Ok(state) => Ok(Producer::BcmAnimateBrightnessStateProducer(c.0, c.1, c.2, state)),
                Err(e) => Err(e),
            },
            Err(e) => Err(e),
        }
    } else if name == "RelaySetValueProducer"@ {
        match channel_arguments(a) {
            Ok(c) => match spec_to_relay_value(a[2]) {
                Ok(value) => Ok(Producer::RelaySetValueProducer(c.0, c.1, value)),
                Err(e) => Err(e),
            },
            Err(e) => Err(e),
        }
    } else {
        Err(leaf(name, ErrorKind::UnknownProducer))
    }
}

/// The call of a producer. A name that no producer has fails at the name; a
/// call with another number of arguments than the producer takes fails at
/// what follows the call; an argument of another type than the parameter's
/// fails as a conversion that is not allowed.
pub open spec fn spec_producer(constants: SpecConstants, s: Seq<char>) -> Outcome<Producer> {
    match spec_item_call(constants, s, false) {
        Outcome::Parsed { rest, value } => match producer_arity(value.0) {
            Some(arity) => if value.1.len() != arity {
                Outcome::Recoverable(wrong_count(rest, arity, value.1.len()))
            } else {
                match build_producer(value.0, value.1) {
                    Ok(producer) => Outcome::Parsed { rest, value: producer },
                    Err(e) => Outcome::Recoverable(e),
                }
            },
            None => Outcome::Recoverable(leaf(value.0, ErrorKind::UnknownProducer)),
        },
        Outcome::Recoverable(e) => Outcome::Recoverable(e),
        Outcome::Fatal(e) => Outcome::Fatal(e),
    }
}

/// Looks up the number of arguments that the producer called `name` takes.
pub fn find_producer(name: &str) -> (arity: Option<usize>)
    ensures
        match arity {
            Some(n) => producer_arity(name@) == Some(n as nat),
            None => producer_arity(name@) is None,
        },
{
    if str_equal(name, "NoneProducer") {
        Some(0)
    } else if str_equal(name, "PacketProducer") {
        Some(1)
    } else if str_equal(name, "MessageProducer") {
        Some(3)
    } else if str_equal(name, "BcmChangeBrightnessProducer") {
        Some(3)
    } else if str_equal(name, "BcmChangeBrightnessStateProducer") {
        Some(3)
    } else if str_equal(name, "BcmAnimateBrightnessProducer") {
        Some(4)
    } else if str_equal(name, "BcmAnimateBrightnessStateProducer") {
        Some(4)
    } else if str_equal(name, "RelaySetValueProducer") {
        Some(3)
    } else {
        None
    }
}

/// Converts the first two arguments of a producer for a channel.
fn channel(arguments: &Vec<Literal>) -> (r: Result<(u16, u8), Failure>)
    requires
        arguments@.len() >= 2,
    ensures
        match channel_arguments(arguments.deep_view()) {
            Ok(c) => r == Ok::<(u16, u8), Failure>(c),
            Err(e) => r matches Err(Failure::Recoverable(f)) && f.deep_view() == e,
        },
{
    let address = recover(arguments[0].to_u16())?;
    let index = recover(arguments[1].to_u8())?;
    Ok((address, index))
}

/// Converts the first three arguments of a producer for a channel that
/// takes a number.
fn channel_and_number(arguments: &Vec<Literal>) -> (r: Result<(u16, u8, u32), Failure>)
    requires
        arguments@.len() >= 3,
    ensures
        match channel_and_number_arguments(arguments.deep_view()) {
            Ok(c) => r == Ok::<(u16, u8, u32), Failure>(c),
            Err(e) => r matches Err(Failure::Recoverable(f)) && f.deep_view() == e,
        },
{
    let (address, index) = channel(arguments)?;
    let number = recover(arguments[2].to_u32())?;
    Ok((address, index, number))
}

/// Makes the producer called `name` of `arguments`.
fn make_producer(name: &str, arguments: &Vec<Literal>) -> (r: Result<Producer, Failure>)
    requires
        producer_arity(name@) == Some(arguments@.len()),
    ensures
        match build_producer(name@, arguments.deep_view()) {
            Ok(producer) => r == Ok::<Producer, Failure>(producer),
            Err(e) => r matches Err(Failure::Recoverable(f)) && f.deep_view() == e,
        },
{
    if str_equal(name, "NoneProducer") {
        Ok(Producer::NoneProducer)
    } else if str_equal(name, "PacketProducer") {
        Ok(Producer::PacketProducer(recover(arguments[0].to_u16())?))
    } else if str_equal(name, "MessageProducer") {
        let address = recover(arguments[0].to_u16())?;
        let code = recover(arguments[1].to_u16())?;
        let value = recover(arguments[2].to_message_value())?;
        Ok(Producer::MessageProducer(address, code, value))
    } else if str_equal(name, "BcmChangeBrightnessProducer") {
        let (address, index) = channel(arguments)?;
        let value = recover(arguments[2].to_bcm_value())?;
        Ok(Producer::BcmChangeBrightnessProducer(address, index, value))
    } else if str_equal(name, "BcmChangeBrightnessStateProducer") {
        let (address, index, state) = channel_and_number(arguments)?;
        Ok(Producer::BcmChangeBrightnessStateProducer(address, index, state))
    } else if str_equal(name, "BcmAnimateBrightnessProducer") {
        let (address, index, duration) = channel_and_number(arguments)?;
        let value = recover(arguments[3].to_bcm_value())?;
        Ok(Producer::BcmAnimateBrightnessProducer(address, index, duration, value))
    } else if str_equal(name, "BcmAnimateBrightnessStateProducer") {
        let (address, index, duration) = channel_and_number(arguments)?;
        let state = recover(arguments[3].to_u32())?;
        Ok(Producer::BcmAnimateBrightnessStateProducer(address, index, duration, state))
    } else if str_equal(name, "RelaySetValueProducer") {
        let (address, index) = channel(arguments)?;
        let value = recover(arguments[2].to_relay_value())?;
        Ok(Producer::RelaySetValueProducer(address, index, value))
    } else {
        Err(Failure::recoverable(name, ErrorKind::UnknownProducer))
    }
}

/// Takes the call of a producer, `Name(argument, ...);`, from the front of
/// `text`.
pub fn producer<'a>(constants: &Constants, text: &'a str) -> (r: Result<
    (&'a str, Producer),
    Failure,
>)
    ensures
        outcome(r) == spec_producer(constants@, text@),
        shorter(text, r),
{
    let (rest, (name, arguments)) = item_call(constants, text, false)?;
    match find_producer(name) {
        Some(arity) => {
            expect_count(rest, arity, arguments.len())?;
            let made = make_producer(name, &arguments)?;
            Ok((rest, made))
        },
        None => Err(Failure::recoverable(name, ErrorKind::UnknownProducer)),
    }
}

} // verus!
