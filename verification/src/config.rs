//! What the compiler produces: the rules, the peripherals and the initial
//! state of the slots.
use crate::table::bindings;
use crate::value::{BcmValue, CronExpression, MessageValue, RelayValue, SpecCronExpression, Value};
use vstd::prelude::*;

verus! {

/// What is taken out of an event to be compared.
#[derive(Debug, Clone, Copy, PartialEq, Eq)]
pub enum Extractor {
    NoneExtractor,
    PacketExtractor,
    EventCodeExtractor,
    EventProducerAddressExtractor,
    MessageCodeExtractor,
    MessageValueExtractor,
    ButtonIndexExtractor,
}

/// A test of an extracted value or of a state slot, or a change of a state
/// slot. A `u32` is the index of a state slot.
#[derive(Debug, PartialEq, Eq)]
pub enum Filter {
    ValueEqualToConstFilter(Value),
    StateEqualToConstFilter(u32, Value),
    StateEqualToValueFilter(u32),
    IncrementStateByConstFilter(u32, Value),
    IncrementStateByValueFilter(u32),
    DecrementStateByConstFilter(u32, Value),
    DecrementStateByValueFilter(u32),
    SetStateToConstFilter(u32, Value),
    SetStateToValueFilter(u32),
    FlipStateFilter(u32),
    TimeMatchesCronExpressionFilter(CronExpression),
    StateMoreThanConstFilter(u32, Value),
}

/// The model of a [`Filter`].
pub ghost enum SpecFilter {
    ValueEqualToConstFilter(Value),
    StateEqualToConstFilter(u32, Value),
    StateEqualToValueFilter(u32),
    IncrementStateByConstFilter(u32, Value),
    IncrementStateByValueFilter(u32),
    DecrementStateByConstFilter(u32, Value),
    DecrementStateByValueFilter(u32),
    SetStateToConstFilter(u32, Value),
    SetStateToValueFilter(u32),
    FlipStateFilter(u32),
    TimeMatchesCronExpressionFilter(SpecCronExpression),
    StateMoreThanConstFilter(u32, Value),
}

/// What makes an outgoing packet. The first `u16` is the address of the
/// receiver; a `u8` is the index of a channel; a `u32` is the index of a
/// state slot, or a duration where a value follows it.
#[derive(Debug, Clone, Copy, PartialEq, Eq)]
pub enum Producer {
    NoneProducer,
    PacketProducer(u16),
    MessageProducer(u16, u16, MessageValue),
    BcmChangeBrightnessProducer(u16, u8, BcmValue),
    BcmChangeBrightnessStateProducer(u16, u8, u32),
    BcmAnimateBrightnessProducer(u16, u8, u32, BcmValue),
    BcmAnimateBrightnessStateProducer(u16, u8, u32, u32),
    RelaySetValueProducer(u16, u8, RelayValue),
}

/// A predicate on events.
#[derive(Debug, PartialEq, Eq)]
pub enum Matcher {
    Single { extractor: Extractor, filter: Filter },
    And(Box<Matcher>, Box<Matcher>),
    Or(Box<Matcher>, Box<Matcher>),
    Not(Box<Matcher>),
}

/// The model of a [`Matcher`].
pub ghost enum SpecMatcher {
    Single { extractor: Extractor, filter: SpecFilter },
    And(Box<SpecMatcher>, Box<SpecMatcher>),
    Or(Box<SpecMatcher>, Box<SpecMatcher>),
    Not(Box<SpecMatcher>),
}

/// One action of a rule: what it sends, and the predicate that guards it, if
/// any.
#[derive(Debug, PartialEq, Eq)]
pub struct Creator {
    pub extractor: Extractor,
    pub producer: Producer,
    pub matcher: Option<Matcher>,
}

/// The model of a [`Creator`].
pub ghost struct SpecCreator {
    pub extractor: Extractor,
    pub producer: Producer,
    pub matcher: Option<SpecMatcher>,
}

/// One rule: a predicate, and the actions taken on the events that meet it.
#[derive(Debug, PartialEq, Eq)]
pub struct EventProcessor {
    pub matcher: Matcher,
    pub creators: Vec<Creator>,
}

/// The model of an [`EventProcessor`].
pub ghost struct SpecEventProcessor {
    pub matcher: SpecMatcher,
    pub creators: Seq<SpecCreator>,
}

/// The channels of a dimmable output.
#[derive(Debug, Clone, Copy, PartialEq, Eq)]
pub enum BcmPeripheral {
    Single(u8),
    Rgb(u8, u8, u8),
    Rgbw(u8, u8, u8, u8),
}

/// The channels of a relay output.
#[derive(Debug, Clone, Copy, PartialEq, Eq)]
pub enum RelayPeripheral {
    Single(u8),
    DoubleExclusive(u8, u8),
}

/// An output of a device, with the addresses of the gateways that its events
/// are forwarded to.
#[derive(Debug, PartialEq, Eq)]
pub enum Peripheral {
    Bcm(BcmPeripheral, Vec<u16>),
    Relay(RelayPeripheral, Vec<u16>),
}

/// The model of a [`Peripheral`].
pub ghost enum SpecPeripheral {
    Bcm(BcmPeripheral, Seq<u16>),
    Relay(RelayPeripheral, Seq<u16>),
}

/// The compiled configuration.
#[derive(Debug, PartialEq, Eq)]
pub struct Config {
    /// The peripherals, each with its index, in the order in which they were
    /// declared. A later declaration of an index replaces an earlier one.
    pub peripherals: Vec<(u32, Peripheral)>,
    /// The initial value of each state slot, by the slot's index.
    pub initial_state: Vec<Value>,
    /// The rules, in the order in which they were declared.
    pub event_processors: Vec<EventProcessor>,
}

/// The model of a [`Config`].
pub ghost struct SpecConfig {
    pub peripherals: Map<u32, SpecPeripheral>,
    pub initial_state: Seq<Value>,
    pub event_processors: Seq<SpecEventProcessor>,
}

impl DeepView for Extractor {
    type V = Extractor;

    open spec fn deep_view(&self) -> Extractor {
        *self
    }
}

impl DeepView for Producer {
    type V = Producer;

    open spec fn deep_view(&self) -> Producer {
        *self
    }
}

impl DeepView for Filter {
    type V = SpecFilter;

    open spec fn deep_view(&self) -> SpecFilter {
        match self {
            Filter::ValueEqualToConstFilter(v) => SpecFilter::ValueEqualToConstFilter(*v),
            Filter::StateEqualToConstFilter(i, v) => SpecFilter::StateEqualToConstFilter(*i, *v),
            Filter::StateEqualToValueFilter(i) => SpecFilter::StateEqualToValueFilter(*i),
            Filter::IncrementStateByConstFilter(i, v) => SpecFilter::IncrementStateByConstFilter(
                *i,
                *v,
            ),
            Filter::IncrementStateByValueFilter(i) => SpecFilter::IncrementStateByValueFilter(*i),
            Filter::DecrementStateByConstFilter(i, v) => SpecFilter::DecrementStateByConstFilter(
                *i,
                *v,
            ),
            Filter::DecrementStateByValueFilter(i) => SpecFilter::DecrementStateByValueFilter(*i),
            Filter::SetStateToConstFilter(i, v) => SpecFilter::SetStateToConstFilter(*i, *v),
            Filter::SetStateToValueFilter(i) => SpecFilter::SetStateToValueFilter(*i),
            Filter::FlipStateFilter(i) => SpecFilter::FlipStateFilter(*i),
            Filter::TimeMatchesCronExpressionFilter(c) => {
                SpecFilter::TimeMatchesCronExpressionFilter(c.deep_view())
            },
            Filter::StateMoreThanConstFilter(i, v) => SpecFilter::StateMoreThanConstFilter(*i, *v),
        }
    }
}

/// The model of the predicate `m`.
pub open spec fn matcher_model(m: Matcher) -> SpecMatcher
    decreases m,
{
    match m {
        Matcher::Single { extractor, filter } => SpecMatcher::Single {
            extractor,
            filter: filter.deep_view(),
        },
        Matcher::And(left, right) => SpecMatcher::And(
            Box::new(matcher_model(*left)),
            Box::new(matcher_model(*right)),
        ),
        Matcher::Or(left, right) => SpecMatcher::Or(
            Box::new(matcher_model(*left)),
            Box::new(matcher_model(*right)),
        ),
        Matcher::Not(inner) => SpecMatcher::Not(Box::new(matcher_model(*inner))),
    }
}

impl DeepView for Matcher {
    type V = SpecMatcher;

    open spec fn deep_view(&self) -> SpecMatcher {
        matcher_model(*self)
    }
}

impl DeepView for Creator {
    type V = SpecCreator;

    open spec fn deep_view(&self) -> SpecCreator {
        SpecCreator {
            extractor: self.extractor,
            producer: self.producer,
            matcher: self.matcher.deep_view(),
        }
    }
}

impl DeepView for EventProcessor {
    type V = SpecEventProcessor;

    open spec fn deep_view(&self) -> SpecEventProcessor {
        SpecEventProcessor {
            matcher: self.matcher.deep_view(),
            creators: self.creators.deep_view(),
        }
    }
}

impl DeepView for Peripheral {
    type V = SpecPeripheral;

    open spec fn deep_view(&self) -> SpecPeripheral {
        match self {
            Peripheral::Bcm(shape, gateways) => SpecPeripheral::Bcm(*shape, gateways@),
            Peripheral::Relay(shape, gateways) => SpecPeripheral::Relay(*shape, gateways@),
        }
    }
}

impl DeepView for Config {
    type V = SpecConfig;

    open spec fn deep_view(&self) -> SpecConfig {
        SpecConfig {
            peripherals: bindings(self.peripherals.deep_view()),
            initial_state: self.initial_state@,
            event_processors: self.event_processors.deep_view(),
        }
    }
}

/// The conjunction of two predicates.
pub open spec fn both(left: SpecMatcher, right: SpecMatcher) -> SpecMatcher {
    SpecMatcher::And(Box::new(left), Box::new(right))
}

/// The test that what `extractor` takes out of an event equals `value`.
pub open spec fn equals(extractor: Extractor, value: u16) -> SpecMatcher {
    SpecMatcher::Single {
        extractor,
        filter: SpecFilter::ValueEqualToConstFilter(Value::U16(value)),
    }
}

impl Matcher {
    /// The conjunction of two predicates.
    pub fn both(left: Matcher, right: Matcher) -> (m: Matcher)
        ensures
            m.deep_view() == both(left.deep_view(), right.deep_view()),
    {
        Matcher::And(Box::new(left), Box::new(right))
    }

    /// The test that what `extractor` takes out of an event equals `value`.
    pub fn equals(extractor: Extractor, value: u16) -> (m: Matcher)
        ensures
            m.deep_view() == equals(extractor, value),
    {
        Matcher::Single { extractor, filter: Filter::ValueEqualToConstFilter(Value::U16(value)) }
    }
}

} // verus!
