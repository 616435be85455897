//! The strict conversions from a literal to the type that an item's
//! parameter has: a literal converts to its own type and to no other.
use crate::cron::{converted, cron_expression, not_a_value, spec_cron_expression};
use crate::error::{leaf, ErrorKind, Expectation, ParserError, SpecError};
use crate::literal::{Literal, SpecLiteral};
use crate::text::str_equal;
use crate::value::{
    BcmValue, CronExpression, MessageValue, RelayDoubleExclusiveValue, RelayValue,
    SpecCronExpression, Value,
};
use vstd::prelude::*;
use vstd::string::*;

verus! {

impl SpecLiteral {
    /// The name of the literal's type.
    pub open spec fn kind_name(self) -> &'static str {
        match self {
            SpecLiteral::U8(_) => "u8",
            SpecLiteral::U16(_) => "u16",
            SpecLiteral::U32(_) => "u32",
            SpecLiteral::Bool(_) => "bool",
            SpecLiteral::String(_) => "string",
            SpecLiteral::Rgb(_, _, _, _) => "rgb",
            SpecLiteral::Rgbw(_, _, _, _, _) => "rgbw",
        }
    }
}

/// The failure of a conversion from the type `from` to the type `to`. It
/// names no place in the text.
pub open spec fn not_allowed(from: &'static str, to: &'static str) -> SpecError {
    leaf(""@, ErrorKind::CastFromToNotAllowed(from, to))
}

/// Only a `u8` is a `u8`.
pub open spec fn spec_to_u8(l: SpecLiteral) -> Result<u8, SpecError> {
    match l {
        SpecLiteral::U8(v) => Ok(v),
        other => Err(not_allowed(other.kind_name(), "u8")),
    }
}

/// Only a `u16` is a `u16`.
pub open spec fn spec_to_u16(l: SpecLiteral) -> Result<u16, SpecError> {
    match l {
        SpecLiteral::U16(v) => Ok(v),
        other => Err(not_allowed(other.kind_name(), "u16")),
    }
}

/// Only a `u32` is a `u32`.
pub open spec fn spec_to_u32(l: SpecLiteral) -> Result<u32, SpecError> {
    match l {
        SpecLiteral::U32(v) => Ok(v),
        other => Err(not_allowed(other.kind_name(), "u32")),
    }
}

/// Only a boolean is a `bool`.
pub open spec fn spec_to_bool(l: SpecLiteral) -> Result<bool, SpecError> {
    match l {
        SpecLiteral::Bool(v) => Ok(v),
        other => Err(not_allowed(other.kind_name(), "bool")),
    }
}

/// Every literal but a string is a value.
pub open spec fn spec_to_value(l: SpecLiteral) -> Result<Value, SpecError> {
    match l {
        SpecLiteral::U8(v) => Ok(Value::U8(v)),
        SpecLiteral::U16(v) => Ok(Value::U16(v)),
        SpecLiteral::U32(v) => Ok(Value::U32(v)),
        SpecLiteral::Bool(v) => Ok(Value::Bool(v)),
        SpecLiteral::Rgb(r, g, b, brightness) => Ok(Value::Rgb(r, g, b, brightness)),
        SpecLiteral::Rgbw(r, g, b, w, brightness) => Ok(Value::Rgbw(r, g, b, w, brightness)),
        SpecLiteral::String(_) => Err(not_allowed("string", "value")),
    }
}

/// A number or a boolean is a message value.
pub open spec fn spec_to_message_value(l: SpecLiteral) -> Result<MessageValue, SpecError> {
    match l {
        SpecLiteral::U8(v) => Ok(MessageValue::U8(v)),
        SpecLiteral::U16(v) => Ok(MessageValue::U16(v)),
        SpecLiteral::U32(v) => Ok(MessageValue::U32(v)),
        SpecLiteral::Bool(v) => Ok(MessageValue::Bool(v)),
        other => Err(not_allowed(other.kind_name(), "message value")),
    }
}

/// An octet or a colour is a brightness.
pub open spec fn spec_to_bcm_value(l: SpecLiteral) -> Result<BcmValue, SpecError> {
    match l {
        SpecLiteral::U8(v) => Ok(BcmValue::Single(v)),
        SpecLiteral::Rgb(r, g, b, brightness) => Ok(BcmValue::Rgb(r, g, b, brightness)),
        SpecLiteral::Rgbw(r, g, b, w, brightness) => Ok(BcmValue::Rgbw(r, g, b, w, brightness)),
        other => Err(not_allowed(other.kind_name(), "bcm value")),
    }
}

/// A boolean is the state of a single relay; the strings `first`, `second`
/// and `none` name the channel of a pair that is switched on. Another string
/// is no value.
pub open spec fn spec_to_relay_value(l: SpecLiteral) -> Result<RelayValue, SpecError> {
    match l {
        SpecLiteral::Bool(v) => Ok(RelayValue::Single(v)),
        SpecLiteral::String(s) => if s == "first"@ {
            Ok(RelayValue::DoubleExclusive(RelayDoubleExclusiveValue::FirstChannelOn))
        } else if s == "second"@ {
            Ok(RelayValue::DoubleExclusive(RelayDoubleExclusiveValue::SecondChannelOn))
        } else if s == "none"@ {
            Ok(RelayValue::DoubleExclusive(RelayDoubleExclusiveValue::NoChannelOn))
        } else {
            Err(not_a_value())
        },
        other => Err(not_allowed(other.kind_name(), "relay value")),
    }
}

/// A string that writes a cron expression is one.
pub open spec fn spec_to_cron_expression(l: SpecLiteral) -> Result<SpecCronExpression, SpecError> {
    match l {
        SpecLiteral::String(s) => spec_cron_expression(s),
        other => Err(not_allowed(other.kind_name(), "cron expression")),
    }
}

impl Literal {
    /// The name of the literal's type.
    pub fn kind_name(&self) -> (name: &'static str)
        ensures
            name == self.deep_view().kind_name(),
    {
        match self {
            Literal::U8(_) => "u8",
            Literal::U16(_) => "u16",
            Literal::U32(_) => "u32",
            Literal::Bool(_) => "bool",
            Literal::String(_) => "string",
            Literal::Rgb(_, _, _, _) => "rgb",
            Literal::Rgbw(_, _, _, _, _) => "rgbw",
        }
    }

    /// The failure of a conversion of this literal to the type `to`.
    fn not_allowed(&self, to: &'static str) -> (e: ParserError)
        ensures
            e.deep_view() == not_allowed(self.deep_view().kind_name(), to),
    {
        ParserError::leaf("", ErrorKind::CastFromToNotAllowed(self.kind_name(), to))
    }

    /// The literal as a `u8`: only a `u8` literal converts.
    pub fn to_u8(&self) -> (r: Result<u8, ParserError>)
        ensures
            converted(r) == spec_to_u8(self.deep_view()),
    {
        match self {
            Literal::U8(v) => Ok(*v),
            _ => Err(self.not_allowed("u8")),
        }
    }

    /// The literal as a `u16`: only a `u16` literal converts.
    pub fn to_u16(&self) -> (r: Result<u16, ParserError>)
        ensures
            converted(r) == spec_to_u16(self.deep_view()),
    {
        match self {
            Literal::U16(v) => Ok(*v),
            _ => Err(self.not_allowed("u16")),
        }
    }

    /// The literal as a `u32`: only a `u32` literal converts.
    pub fn to_u32(&self) -> (r: Result<u32, ParserError>)
        ensures
            converted(r) == spec_to_u32(self.deep_view()),
    {
        match self {
            Literal::U32(v) => Ok(*v),
            _ => Err(self.not_allowed("u32")),
        }
    }

    /// The literal as a `bool`: only a boolean literal converts.
    pub fn to_bool(&self) -> (r: Result<bool, ParserError>)
        ensures
            converted(r) == spec_to_bool(self.deep_view()),
    {
        match self {
            Literal::Bool(v) => Ok(*v),
            _ => Err(self.not_allowed("bool")),
        }
    }

    /// The literal as a value: every literal but a string converts.
    pub fn to_value(&self) -> (r: Result<Value, ParserError>)
        ensures
            converted(r) == spec_to_value(self.deep_view()),
    {
        match self {
            Literal::U8(v) => Ok(Value::U8(*v)),
            Literal::U16(v) => Ok(Value::U16(*v)),
            Literal::U32(v) => Ok(Value::U32(*v)),
            Literal::Bool(v) => Ok(Value::Bool(*v)),
            Literal::Rgb(r, g, b, brightness) => Ok(Value::Rgb(*r, *g, *b, *brightness)),
            Literal::Rgbw(r, g, b, w, brightness) => Ok(Value::Rgbw(*r, *g, *b, *w, *brightness)),
            Literal::String(_) => Err(self.not_allowed("value")),
        }
    }

    /// The literal as a message value: a number or a boolean converts.
    pub fn to_message_value(&self) -> (r: Result<MessageValue, ParserError>)
        ensures
            converted(r) == spec_to_message_value(self.deep_view()),
    {
        match self {
            Literal::U8(v) => Ok(MessageValue::U8(*v)),
            Literal::U16(v) => Ok(MessageValue::U16(*v)),
            Literal::U32(v) => Ok(MessageValue::U32(*v)),
            Literal::Bool(v) => Ok(MessageValue::Bool(*v)),
            _ => Err(self.not_allowed("message value")),
        }
    }

    /// The literal as a brightness: a `u8` or a colour converts.
    pub fn to_bcm_value(&self) -> (r: Result<BcmValue, ParserError>)
        ensures
            converted(r) == spec_to_bcm_value(self.deep_view()),
    {
        match self {
            Literal::U8(v) => Ok(BcmValue::Single(*v)),
            Literal::Rgb(r, g, b, brightness) => Ok(BcmValue::Rgb(*r, *g, *b, *brightness)),
            Literal::Rgbw(r, g, b, w, brightness) => Ok(
                BcmValue::Rgbw(*r, *g, *b, *w, *brightness),
            ),
            _ => Err(self.not_allowed("bcm value")),
        }
    }

    /// The literal as the state of a relay: a boolean converts, and the
    /// strings `first`, `second` and `none`. Another string fails as a
    /// value that was expected.
    pub fn to_relay_value(&self) -> (r: Result<RelayValue, ParserError>)
        ensures
            converted(r) == spec_to_relay_value(self.deep_view()),
    {
        match self {
            Literal::Bool(v) => Ok(RelayValue::Single(*v)),
            Literal::String(s) => {
                let s = s.as_str();
                if str_equal(s, "first") {
                    Ok(RelayValue::DoubleExclusive(RelayDoubleExclusiveValue::FirstChannelOn))
                } else if str_equal(s, "second") {
                    Ok(RelayValue::DoubleExclusive(RelayDoubleExclusiveValue::SecondChannelOn))
                } else if str_equal(s, "none") {
                    Ok(RelayValue::DoubleExclusive(RelayDoubleExclusiveValue::NoChannelOn))
                } else {
                    Err(ParserError::leaf("", ErrorKind::Expected(Expectation::Value)))
                }
            },
            _ => Err(self.not_allowed("relay value")),
        }
    }

    /// The literal as a cron expression: a string of six or seven fields
    /// converts. A string with another number of fields or with a malformed
    /// field fails as a value that was expected.
    pub fn to_cron_expression(&self) -> (r: Result<CronExpression, ParserError>)
        ensures
            converted(r) == spec_to_cron_expression(self.deep_view()),
            r matches Ok(expression) ==> expression.well_formed(),
    {
        match self {
            Literal::String(s) => cron_expression(s.as_str()),
            _ => Err(self.not_allowed("cron expression")),
        }
    }
}

} // verus!
