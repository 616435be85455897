//! The values that the items of a rule are built from.
use vstd::prelude::*;

verus! {

/// A value that a filter compares with or writes to a state slot.
#[derive(Debug, Clone, Copy, PartialEq, Eq)]
pub enum Value {
    U8(u8),
    U16(u16),
    U32(u32),
    Bool(bool),
    Rgb(u8, u8, u8, u8),
    Rgbw(u8, u8, u8, u8, u8),
}

/// A value that a message carries.
#[derive(Debug, Clone, Copy, PartialEq, Eq)]
pub enum MessageValue {
    U8(u8),
    U16(u16),
    U32(u32),
    Bool(bool),
}

/// The brightness of a dimmable output.
#[derive(Debug, Clone, Copy, PartialEq, Eq)]
pub enum BcmValue {
    Single(u8),
    Rgb(u8, u8, u8, u8),
    Rgbw(u8, u8, u8, u8, u8),
}

/// Which of two relay channels that exclude each other is switched on.
#[derive(Debug, Clone, Copy, PartialEq, Eq)]
pub enum RelayDoubleExclusiveValue {
    FirstChannelOn,
    SecondChannelOn,
    NoChannelOn,
}

/// The state of a relay output.
#[derive(Debug, Clone, Copy, PartialEq, Eq)]
pub enum RelayValue {
    Single(bool),
    DoubleExclusive(RelayDoubleExclusiveValue),
}

/// One field of a cron expression.
#[derive(Debug, PartialEq, Eq)]
pub enum CronField {
    /// Every value matches.
    Any,
    /// The values that match, in ascending order.
    Including(Vec<u8>),
}

/// The model of a [`CronField`].
pub ghost enum SpecCronField {
    Any,
    Including(Seq<u8>),
}

/// The times at which a rule applies.
#[derive(Debug, PartialEq, Eq)]
pub struct CronExpression {
    pub second: CronField,
    pub minute: CronField,
    pub hour: CronField,
    pub day_month: CronField,
    pub month: CronField,
    pub day_week: CronField,
    pub year: CronField,
}

/// The model of a [`CronExpression`].
pub ghost struct SpecCronExpression {
    pub second: SpecCronField,
    pub minute: SpecCronField,
    pub hour: SpecCronField,
    pub day_month: SpecCronField,
    pub month: SpecCronField,
    pub day_week: SpecCronField,
    pub year: SpecCronField,
}

impl DeepView for Value {
    type V = Value;

    open spec fn deep_view(&self) -> Value {
        *self
    }
}

impl DeepView for MessageValue {
    type V = MessageValue;

    open spec fn deep_view(&self) -> MessageValue {
        *self
    }
}

impl DeepView for BcmValue {
    type V = BcmValue;

    open spec fn deep_view(&self) -> BcmValue {
        *self
    }
}

impl DeepView for RelayValue {
    type V = RelayValue;

    open spec fn deep_view(&self) -> RelayValue {
        *self
    }
}

impl DeepView for CronField {
    type V = SpecCronField;

    open spec fn deep_view(&self) -> SpecCronField {
        match self {
            CronField::Any => SpecCronField::Any,
            CronField::Including(values) => SpecCronField::Including(values@),
        }
    }
}

impl DeepView for CronExpression {
    type V = SpecCronExpression;

    open spec fn deep_view(&self) -> SpecCronExpression {
        SpecCronExpression {
            second: self.second.deep_view(),
            minute: self.minute.deep_view(),
            hour: self.hour.deep_view(),
            day_month: self.day_month.deep_view(),
            month: self.month.deep_view(),
            day_week: self.day_week.deep_view(),
            year: self.year.deep_view(),
        }
    }
}

} // verus!
