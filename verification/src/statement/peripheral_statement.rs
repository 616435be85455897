//! `peripheral <index> bcm|relay <shape>(<channel>, ...);`, with
//! `pub(<address>, ...)` before it where the peripheral's events are
//! forwarded.
use crate::cast::{spec_to_u16, spec_to_u32, spec_to_u8};
use crate::config::{BcmPeripheral, Peripheral, RelayPeripheral, SpecPeripheral};
use crate::error::{
    cut, leaf, no_alternative_at, or_else, or_else4, outcome, shorter, ErrorKind, Expectation,
    Failure, Outcome, SpecError,
};
use crate::item::recover;
use crate::keyword::{keyword, spec_keyword};
use crate::literal::{literal, spec_literal, Literal, SpecLiteral};
use crate::parser::{
    argument0, argument_or_constant0, multispace0, multispace1, spec_arguments, spec_multispace0,
    spec_multispace1,
};
use crate::symbol::{spec_symbol, symbol, SEMICOLON};
use crate::table::{Constants, SpecConstants};
use vstd::prelude::*;
use vstd::string::*;

verus! {

/// The kind of output that a peripheral is.
#[derive(Debug, Clone, Copy, PartialEq, Eq)]
pub enum Family {
    Bcm,
    Relay,
}

/// The arrangement of a peripheral's channels.
#[derive(Debug, Clone, Copy, PartialEq, Eq)]
pub enum Shape {
    Single,
    Rgb,
    Rgbw,
    DoubleExclusive,
}

impl DeepView for Family {
    type V = Family;

    open spec fn deep_view(&self) -> Family {
        *self
    }
}

impl DeepView for Shape {
    type V = Shape;

    open spec fn deep_view(&self) -> Shape {
        *self
    }
}

/// The same outcome with `value` in place of what was taken.
pub open spec fn giving<T, U>(o: Outcome<T>, value: U) -> Outcome<U> {
    match o {
        Outcome::Parsed { rest, value: _ } => Outcome::Parsed { rest, value },
        Outcome::Recoverable(e) => Outcome::Recoverable(e),
        Outcome::Fatal(e) => Outcome::Fatal(e),
    }
}

/// One of the keywords `bcm` and `relay`.
pub open spec fn spec_family(s: Seq<char>) -> Outcome<Family> {
    or_else(
        s,
        giving(spec_keyword(s, "bcm"), Family::Bcm),
        giving(spec_keyword(s, "relay"), Family::Relay),
    )
}

/// One of the keywords `single`, `rgb`, `rgbw` and `double_exclusive`.
pub open spec fn spec_shape(s: Seq<char>) -> Outcome<Shape> {
    or_else4(
        s,
        giving(spec_keyword(s, "single"), Shape::Single),
        giving(spec_keyword(s, "rgb"), Shape::Rgb),
        giving(spec_keyword(s, "rgbw"), Shape::Rgbw),
        giving(spec_keyword(s, "double_exclusive"), Shape::DoubleExclusive),
    )
}

/// What follows the keyword `peripheral`: blank space, the index as a
/// literal, blank space, the family, blank space, the shape, and the
/// channels as literals in parentheses.
pub open spec fn spec_peripheral_header(s: Seq<char>) -> Outcome<
    (SpecLiteral, Family, Shape, Seq<SpecLiteral>),
> {
    match spec_multispace1(s) {
        Outcome::Parsed { rest, value } => match spec_literal(rest) {
            Outcome::Parsed { rest, value: index } => match spec_multispace1(rest) {
                Outcome::Parsed { rest, value } => match spec_family(rest) {
                    Outcome::Parsed { rest, value: family } => match spec_multispace1(rest) {
                        Outcome::Parsed { rest, value } => match spec_shape(rest) {
                            Outcome::Parsed { rest, value: shape } => match spec_arguments(
                                Map::empty(),
                                rest,
                            ) {
                                Outcome::Parsed { rest, value: channels } => Outcome::Parsed {
                                    rest,
                                    value: (index, family, shape, channels),
                                },
                                Outcome::Recoverable(e) => Outcome::Recoverable(e),
                                Outcome::Fatal(e) => Outcome::Fatal(e),
                            },
                            Outcome::Recoverable(e) => Outcome::Recoverable(e),
                            Outcome::Fatal(e) => Outcome::Fatal(e),
                        },
                        Outcome::Recoverable(e) => Outcome::Recoverable(e),
                        Outcome::Fatal(e) => Outcome::Fatal(e),
                    },
                    Outcome::Recoverable(e) => Outcome::Recoverable(e),
                    Outcome::Fatal(e) => Outcome::Fatal(e),
                },
                Outcome::Recoverable(e) => Outcome::Recoverable(e),
                Outcome::Fatal(e) => Outcome::Fatal(e),
            },
            Outcome::Recoverable(e) => Outcome::Recoverable(e),
            Outcome::Fatal(e) => Outcome::Fatal(e),
        },
        Outcome::Recoverable(e) => Outcome::Recoverable(e),
        Outcome::Fatal(e) => Outcome::Fatal(e),
    }
}

/// The number of channels of a peripheral of `family` in `shape`, where that
/// family has the shape.
pub open spec fn channel_count(family: Family, shape: Shape) -> Option<nat> {
    match (family, shape) {
        (Family::Bcm, Shape::Single) => Some(1),
        (Family::Bcm, Shape::Rgb) => Some(3),
        (Family::Bcm, Shape::Rgbw) => Some(4),
        (Family::Relay, Shape::Single) => Some(1),
        (Family::Relay, Shape::DoubleExclusive) => Some(2),
        _ => None,
    }
}

/// The channels as octets. They convert from the last to the first, and the
/// first that does not convert fails.
pub open spec fn channel_octets(channels: Seq<SpecLiteral>) -> Result<Seq<u8>, SpecError>
    decreases channels.len(),
{
    if channels.len() == 0 {
        Ok(Seq::empty())
    } else {
        match spec_to_u8(channels.last()) {
            Ok(v) => match channel_octets(channels.drop_last()) {
                Ok(before) => Ok(before.push(v)),
                Err(e) => Err(e),
            },
            Err(e) => Err(e),
        }
    }
}

/// The peripheral of `family` in `shape` on the channels `c`, with no
/// gateway.
pub open spec fn shaped(family: Family, shape: Shape, c: Seq<u8>) -> SpecPeripheral {
    match (family, shape) {
        (Family::Bcm, Shape::Single) => SpecPeripheral::Bcm(
            BcmPeripheral::Single(c[0]),
            Seq::empty(),
        ),
        (Family::Bcm, Shape::Rgb) => SpecPeripheral::Bcm(
            BcmPeripheral::Rgb(c[0], c[1], c[2]),
            Seq::empty(),
        ),
        (Family::Bcm, _) => SpecPeripheral::Bcm(
            BcmPeripheral::Rgbw(c[0], c[1], c[2], c[3]),
            Seq::empty(),
        ),
        (Family::Relay, Shape::Single) => SpecPeripheral::Relay(
            RelayPeripheral::Single(c[0]),
            Seq::empty(),
        ),
        (Family::Relay, _) => SpecPeripheral::Relay(
            RelayPeripheral::DoubleExclusive(c[0], c[1]),
            Seq::empty(),
        ),
    }
}

/// The peripheral that a declaration describes, with its index. `s` is the
/// text of the declaration and `rest` what it left. A shape that the family
/// does not have and a wrong number of channels fail at `s`; an index that
/// is no `u32` and a channel that is no `u8` fail as conversions that are
/// not allowed.
pub open spec fn declared(
    s: Seq<char>,
    rest: Seq<char>,
    header: (SpecLiteral, Family, Shape, Seq<SpecLiteral>),
) -> Outcome<(u32, SpecPeripheral)> {
    match channel_count(header.1, header.2) {
        None => Outcome::Recoverable(leaf(s, ErrorKind::Expected(Expectation::Something))),
        Some(count) => if header.3.len() != count {
            Outcome::Recoverable(
                leaf(
                    s,
                    ErrorKind::Expected(
                        Expectation::ArgumentCount(count as usize, header.3.len() as usize),
                    ),
                ),
            )
        } else {
            match spec_to_u32(header.0) {
                Err(e) => Outcome::Recoverable(e),
                Ok(index) => match channel_octets(header.3) {
                    Err(e) => Outcome::Recoverable(e),
                    Ok(c) => Outcome::Parsed {
                        rest,
                        value: (index, shaped(header.1, header.2, c)),
                    },
                },
            }
        },
    }
}

/// The declaration of a peripheral without gateways. Once the keyword
/// `peripheral` is read, a failure before the closing parenthesis is fatal.
pub open spec fn spec_peripheral_base(s: Seq<char>) -> Outcome<(u32, SpecPeripheral)> {
    match spec_keyword(s, "peripheral") {
        Outcome::Parsed { rest, value } => match spec_peripheral_header(rest).cut() {
            Outcome::Parsed { rest, value: header } => match spec_symbol(rest, SEMICOLON) {
                Outcome::Parsed { rest, value } => declared(s, rest, header),
                Outcome::Recoverable(e) => Outcome::Recoverable(e),
                Outcome::Fatal(e) => Outcome::Fatal(e),
            },
            Outcome::Recoverable(e) => Outcome::Recoverable(e),
            Outcome::Fatal(e) => Outcome::Fatal(e),
        },
        Outcome::Recoverable(e) => Outcome::Recoverable(e),
        Outcome::Fatal(e) => Outcome::Fatal(e),
    }
}

/// The addresses of the gateways. They convert from the first to the last,
/// and the first that is no `u16` fails.
pub open spec fn gateway_addresses(a: Seq<SpecLiteral>) -> Result<Seq<u16>, SpecError>
    decreases a.len(),
{
    if a.len() == 0 {
        Ok(Seq::empty())
    } else {
        match gateway_addresses(a.drop_last()) {
            Ok(before) => match spec_to_u16(a.last()) {
                Ok(v) => Ok(before.push(v)),
                Err(e) => Err(e),
            },
            Err(e) => Err(e),
        }
    }
}

/// The peripheral `p` with `gateways` after the gateways it has.
pub open spec fn forwarded(p: SpecPeripheral, gateways: Seq<u16>) -> SpecPeripheral {
    match p {
        SpecPeripheral::Bcm(shape, before) => SpecPeripheral::Bcm(shape, before + gateways),
        SpecPeripheral::Relay(shape, before) => SpecPeripheral::Relay(shape, before + gateways),
    }
}

/// The declaration of a peripheral with gateways: `pub`, the addresses as
/// constants or literals in parentheses, blank space and the declaration.
pub open spec fn spec_pub_peripheral(constants: SpecConstants, s: Seq<char>) -> Outcome<
    (u32, SpecPeripheral),
> {
    match spec_keyword(s, "pub") {
        Outcome::Parsed { rest, value } => match spec_arguments(
            constants,
            spec_multispace0(rest),
        ) {
            Outcome::Parsed { rest, value: addresses } => match spec_multispace1(rest) {
                Outcome::Parsed { rest, value } => match spec_peripheral_base(rest) {
                    Outcome::Parsed { rest, value: declared } => match gateway_addresses(
                        addresses,
                    ) {
                        Ok(gateways) => Outcome::Parsed {
                            rest,
                            value: (declared.0, forwarded(declared.1, gateways)),
                        },
                        Err(e) => Outcome::Recoverable(e),
                    },
                    Outcome::Recoverable(e) => Outcome::Recoverable(e),
                    Outcome::Fatal(e) => Outcome::Fatal(e),
                },
                Outcome::Recoverable(e) => Outcome::Recoverable(e),
                Outcome::Fatal(e) => Outcome::Fatal(e),
            },
            Outcome::Recoverable(e) => Outcome::Recoverable(e),
            Outcome::Fatal(e) => Outcome::Fatal(e),
        },
        Outcome::Recoverable(e) => Outcome::Recoverable(e),
        Outcome::Fatal(e) => Outcome::Fatal(e),
    }
}

/// The declaration of a peripheral, with gateways or without.
pub open spec fn spec_peripheral_statement(
    constants: SpecConstants,
    s: Seq<char>,
) -> Outcome<(u32, SpecPeripheral)> {
    or_else(s, spec_pub_peripheral(constants, s), spec_peripheral_base(s))
}

/// Takes one of the keywords `bcm` and `relay` from the front of `text`.
pub fn family<'a>(text: &'a str) -> (r: Result<(&'a str, Family), Failure>)
    ensures
        outcome(r) == spec_family(text@),
        shorter(text, r),
{
    let e1 = match keyword(text, "bcm") {
        Ok((rest, _)) => return Ok((rest, Family::Bcm)),
        Err(Failure::Fatal(e)) => return Err(Failure::Fatal(e)),
        Err(Failure::Recoverable(e)) => e,
    };
    let e2 = match keyword(text, "relay") {
        Ok((rest, _)) => return Ok((rest, Family::Relay)),
        Err(Failure::Fatal(e)) => return Err(Failure::Fatal(e)),
        Err(Failure::Recoverable(e)) => e,
    };
    Err(no_alternative_at(text, e1.or(e2)))
}

/// Takes one of the keywords `single`, `rgb`, `rgbw` and `double_exclusive`
/// from the front of `text`.
pub fn shape<'a>(text: &'a str) -> (r: Result<(&'a str, Shape), Failure>)
    ensures
        outcome(r) == spec_shape(text@),
        shorter(text, r),
{
    let e1 = match keyword(text, "single") {
        Ok((rest, _)) => return Ok((rest, Shape::Single)),
        Err(Failure::Fatal(e)) => return Err(Failure::Fatal(e)),
        Err(Failure::Recoverable(e)) => e,
    };
    let e2 = match keyword(text, "rgb") {
        Ok((rest, _)) => return Ok((rest, Shape::Rgb)),
        Err(Failure::Fatal(e)) => return Err(Failure::Fatal(e)),
        Err(Failure::Recoverable(e)) => e,
    };
    let e3 = match keyword(text, "rgbw") {
        Ok((rest, _)) => return Ok((rest, Shape::Rgbw)),
        Err(Failure::Fatal(e)) => return Err(Failure::Fatal(e)),
        Err(Failure::Recoverable(e)) => e,
    };
    let e4 = match keyword(text, "double_exclusive") {
        Ok((rest, _)) => return Ok((rest, Shape::DoubleExclusive)),
        Err(Failure::Fatal(e)) => return Err(Failure::Fatal(e)),
        Err(Failure::Recoverable(e)) => e,
    };
    Err(no_alternative_at(text, e1.or(e2).or(e3).or(e4)))
}

/// Takes what follows the keyword `peripheral` from the front of `text`.
fn header<'a>(text: &'a str) -> (r: Result<
    (&'a str, (Literal, Family, Shape, Vec<Literal>)),
    Failure,
>)
    ensures
        outcome(r) == spec_peripheral_header(text@),
        shorter(text, r),
{
    let (rest, _) = multispace1(text)?;
    let (rest, index) = literal(rest)?;
    let (rest, _) = multispace1(rest)?;
    let (rest, family) = family(rest)?;
    let (rest, _) = multispace1(rest)?;
    let (rest, shape) = shape(rest)?;
    let (rest, channels) = argument0(rest)?;
    Ok((rest, (index, family, shape, channels)))
}

/// The number of channels of a peripheral of `family` in `shape`.
fn count_channels(family: Family, shape: Shape) -> (count: Option<usize>)
    ensures
        match count {
            Some(n) => channel_count(family, shape) == Some(n as nat),
            None => channel_count(family, shape) is None,
        },
{
    match (family, shape) {
        (Family::Bcm, Shape::Single) => Some(1),
        (Family::Bcm, Shape::Rgb) => Some(3),
        (Family::Bcm, Shape::Rgbw) => Some(4),
        (Family::Relay, Shape::Single) => Some(1),
        (Family::Relay, Shape::DoubleExclusive) => Some(2),
        _ => None,
    }
}

/// There are as many octets as channels.
pub proof fn lemma_channel_octets_len(a: Seq<SpecLiteral>)
    ensures
        channel_octets(a) matches Ok(c) ==> c.len() == a.len(),
    decreases a.len(),
{
    if a.len() > 0 {
        lemma_channel_octets_len(a.drop_last());
    }
}

/// The values `r` with `tail` after them.
pub open spec fn extended<T>(r: Result<Seq<T>, SpecError>, tail: Seq<T>) -> Result<
    Seq<T>,
    SpecError,
> {
    match r {
        Ok(front) => Ok(front + tail),
        Err(e) => Err(e),
    }
}

/// The failure of an address among the first `n` of `a` is the failure of
/// all of `a`.
pub proof fn lemma_gateway_failure(a: Seq<SpecLiteral>, n: int)
    requires
        0 <= n <= a.len(),
        gateway_addresses(a.take(n)) is Err,
    ensures
        gateway_addresses(a) == gateway_addresses(a.take(n)),
    decreases a.len(),
{
    if n == a.len() {
        assert(a.take(n) =~= a);
    } else {
        assert(a.drop_last().take(n) =~= a.take(n));
        lemma_gateway_failure(a.drop_last(), n);
    }
}

/// Converts the channels to octets, from the last to the first.
fn to_octets(channels: &Vec<Literal>) -> (r: Result<Vec<u8>, Failure>)
    ensures
        match channel_octets(channels.deep_view()) {
            Ok(c) => r matches Ok(v) && v@ == c,
            Err(e) => r matches Err(Failure::Recoverable(f)) && f.deep_view() == e,
        },
{
    let ghost all = channels.deep_view();
    let len = channels.len();
    let mut octets: Vec<u8> = Vec::new();
    while octets.len() < len
        invariant
            octets@.len() <= len,
        decreases len - octets@.len(),
    {
        octets.push(0);
    }
    let mut k: usize = len;
    proof {
        assert(all.take(len as int) =~= all);
        assert(octets@.subrange(len as int, len as int) =~= Seq::empty());
        if let Ok(front) = channel_octets(all) {
            assert(front + Seq::<u8>::empty() =~= front);
        }
    }
    while k > 0
        invariant
            k <= len,
            len == channels.len(),
            octets@.len() == len,
            all == channels.deep_view(),
            all.len() == len,
            channel_octets(all) == extended(
                channel_octets(all.take(k as int)),
                octets@.subrange(k as int, len as int),
            ),
        decreases k,
    {
        let ghost tail = octets@.subrange(k as int, len as int);
        let ghost upto = all.take(k as int);
        k = k - 1;
        proof {
            assert(upto.last() == channels@[k as int].deep_view());
            assert(upto.drop_last() =~= all.take(k as int));
        }
        match channels[k].to_u8() {
            Ok(v) => {
                octets.set(k, v);
                proof {
                    let now = octets@.subrange(k as int, len as int);
                    assert(now =~= seq![v] + tail);
                    if let Ok(front) = channel_octets(all.take(k as int)) {
                        assert(front.push(v) + tail =~= front + now);
                    }
                }
            },
            Err(e) => return Err(Failure::Recoverable(e)),
        }
    }
    proof {
        assert(all.take(0) =~= Seq::empty());
        assert(Seq::<u8>::empty() + octets@.subrange(0, len as int) =~= octets@);
    }
    Ok(octets)
}

/// Converts the addresses of the gateways, from the first to the last.
fn to_addresses(addresses: &Vec<Literal>) -> (r: Result<Vec<u16>, Failure>)
    ensures
        match gateway_addresses(addresses.deep_view()) {
            Ok(c) => r matches Ok(v) && v@ == c,
            Err(e) => r matches Err(Failure::Recoverable(f)) && f.deep_view() == e,
        },
{
    let ghost all = addresses.deep_view();
    let mut found: Vec<u16> = Vec::new();
    let mut i: usize = 0;
    proof {
        assert(all.take(0) =~= Seq::empty());
    }
    while i < addresses.len()
        invariant
            i <= addresses.len(),
            all == addresses.deep_view(),
            all.len() == addresses.len(),
            gateway_addresses(all.take(i as int)) == Ok::<Seq<u16>, SpecError>(found@),
        decreases addresses.len() - i,
    {
        proof {
            let next = all.take(i + 1);
            assert(next.last() == addresses@[i as int].deep_view());
            assert(next.drop_last() =~= all.take(i as int));
        }
        match addresses[i].to_u16() {
            Ok(v) => found.push(v),
            Err(e) => {
                proof {
                    lemma_gateway_failure(all, i + 1);
                }
                return Err(Failure::Recoverable(e));
            },
        }
        i = i + 1;
    }
    proof {
        assert(all.take(i as int) =~= all);
    }
    Ok(found)
}

/// The peripheral of `family` in `shape` on the channels `c`.
fn to_shape(family: Family, shape: Shape, c: &Vec<u8>) -> (p: Peripheral)
    requires
        channel_count(family, shape) == Some(c@.len()),
    ensures
        p.deep_view() == shaped(family, shape, c@),
{
    match (family, shape) {
        (Family::Bcm, Shape::Single) => Peripheral::Bcm(BcmPeripheral::Single(c[0]), Vec::new()),
        (Family::Bcm, Shape::Rgb) => Peripheral::Bcm(
            BcmPeripheral::Rgb(c[0], c[1], c[2]),
            Vec::new(),
        ),
        (Family::Bcm, _) => Peripheral::Bcm(
            BcmPeripheral::Rgbw(c[0], c[1], c[2], c[3]),
            Vec::new(),
        ),
        (Family::Relay, Shape::Single) => Peripheral::Relay(
            RelayPeripheral::Single(c[0]),
            Vec::new(),
        ),
        (Family::Relay, _) => Peripheral::Relay(
            RelayPeripheral::DoubleExclusive(c[0], c[1]),
            Vec::new(),
        ),
    }
}

/// The peripheral that a declaration describes, with its index: `text` is
/// the text of the declaration and `rest` what it left.
fn declare<'a>(
    text: &'a str,
    rest: &'a str,
    index: &Literal,
    family: Family,
    shape: Shape,
    channels: &Vec<Literal>,
) -> (r: Result<(&'a str, (u32, Peripheral)), Failure>)
    ensures
        outcome(r) == declared(
            text@,
            rest@,
            (index.deep_view(), family, shape, channels.deep_view()),
        ),
        r matches Ok((left, _)) ==> left@ == rest@,
{
    let count = match count_channels(family, shape) {
        Some(count) => count,
        None => return Err(
            Failure::recoverable(text, ErrorKind::Expected(Expectation::Something)),
        ),
    };
    if channels.len() != count {
        return Err(
            Failure::recoverable(
                text,
                ErrorKind::Expected(Expectation::ArgumentCount(count, channels.len())),
            ),
        );
    }
    let index = recover(index.to_u32())?;
    let octets = to_octets(channels)?;
    proof {
        lemma_channel_octets_len(channels.deep_view());
    }
    Ok((rest, (index, to_shape(family, shape, &octets))))
}

/// Takes the declaration of a peripheral without gateways from the front of
/// `text`: `peripheral <index> bcm|relay <shape>(<channel>, ...);`. The
/// index is a `u32` literal and each channel a `u8` literal. `bcm` has the
/// shapes `single` (one channel), `rgb` (three) and `rgbw` (four), `relay`
/// the shapes `single` (one) and `double_exclusive` (two).
pub fn peripheral_base<'a>(text: &'a str) -> (r: Result<(&'a str, (u32, Peripheral)), Failure>)
    ensures
        outcome(r) == spec_peripheral_base(text@),
        shorter(text, r),
{
    let (rest, _) = keyword(text, "peripheral")?;
    let (rest, (index, family, shape, channels)) = cut(header(rest))?;
    let (rest, _) = symbol(rest, SEMICOLON)?;
    declare(text, rest, &index, family, shape, &channels)
}

/// The peripheral `p` with `gateways` after the gateways it has.
fn forward(p: Peripheral, gateways: Vec<u16>) -> (out: Peripheral)
    ensures
        out.deep_view() == forwarded(p.deep_view(), gateways@),
{
    let mut gateways = gateways;
    match p {
        Peripheral::Bcm(shape, mut before) => {
            before.append(&mut gateways);
            Peripheral::Bcm(shape, before)
        },
        Peripheral::Relay(shape, mut before) => {
            before.append(&mut gateways);
            Peripheral::Relay(shape, before)
        },
    }
}

/// Takes the declaration of a peripheral with gateways from the front of
/// `text`: `pub(<address>, ...)`, blank space and the declaration. Each
/// address is a `u16`, as a literal or as the name of a constant.
pub fn pub_peripheral<'a>(constants: &Constants, text: &'a str) -> (r: Result<
    (&'a str, (u32, Peripheral)),
    Failure,
>)
    ensures
        outcome(r) == spec_pub_peripheral(constants@, text@),
        shorter(text, r),
{
    let (rest, _) = keyword(text, "pub")?;
    let (rest, addresses) = argument_or_constant0(constants, multispace0(rest))?;
    let (rest, _) = multispace1(rest)?;
    let (rest, (index, declared)) = peripheral_base(rest)?;
    let gateways = to_addresses(&addresses)?;
    Ok((rest, (index, forward(declared, gateways))))
}

/// Takes the declaration of a peripheral from the front of `text`, and
/// hands out the peripheral's index and the peripheral. The form with
/// gateways is tried first. A text that is neither form fails at `text`,
/// with the failures of both as the cause. Once the keyword `peripheral` is
/// read, a failure before the closing parenthesis is fatal.
pub fn peripheral_statement<'a>(constants: &Constants, text: &'a str) -> (r: Result<
    (&'a str, (u32, Peripheral)),
    Failure,
>)
    ensures
        outcome(r) == spec_peripheral_statement(constants@, text@),
        shorter(text, r),
{
    let e1 = match pub_peripheral(constants, text) {
        Ok(found) => return Ok(found),
        Err(Failure::Fatal(e)) => return Err(Failure::Fatal(e)),
        Err(Failure::Recoverable(e)) => e,
    };
    let e2 = match peripheral_base(text) {
        Ok(found) => return Ok(found),
        Err(Failure::Fatal(e)) => return Err(Failure::Fatal(e)),
        Err(Failure::Recoverable(e)) => e,
    };
    Err(no_alternative_at(text, e1.or(e2)))
}

} // verus!
