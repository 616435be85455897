//! The extractors, called by name.
use crate::config::Extractor;
use crate::error::{leaf, outcome, shorter, ErrorKind, Failure, Outcome};
use crate::item::{expect_count, item_call, spec_item_call, wrong_count};
use crate::table::{Constants, SpecConstants};
use crate::text::str_equal;
use vstd::prelude::*;

verus! {

/// The extractor that is called `name`, if there is one. No extractor takes
/// an argument.
pub open spec fn extractor_named(name: Seq<char>) -> Option<Extractor> {
    if name == "NoneExtractor"@ {
        Some(Extractor::NoneExtractor)
    } else if name == "PacketExtractor"@ {
        Some(Extractor::PacketExtractor)
    } else if name == "EventCodeExtractor"@ {
        Some(Extractor::EventCodeExtractor)
    } else if name == "EventProducerAddressExtractor"@ {
        Some(Extractor::EventProducerAddressExtractor)
    } else if name == "MessageCodeExtractor"@ {
        Some(Extractor::MessageCodeExtractor)
    } else if name == "MessageValueExtractor"@ {
        Some(Extractor::MessageValueExtractor)
    } else if name == "ButtonIndexExtractor"@ {
        Some(Extractor::ButtonIndexExtractor)
    } else {
        None
    }
}

/// The call of an extractor. A name that no extractor has fails at the name;
/// a call with arguments fails at what follows the call.
pub open spec fn spec_extractor(constants: SpecConstants, s: Seq<char>) -> Outcome<Extractor> {
    match spec_item_call(constants, s, true) {
        Outcome::Parsed { rest, value } => match extractor_named(value.0) {
            Some(extractor) => if value.1.len() == 0 {
                Outcome::Parsed { rest, value: extractor }
            } else {
                Outcome::Recoverable(wrong_count(rest, 0, value.1.len()))
            },
            None => Outcome::Recoverable(leaf(value.0, ErrorKind::UnknownExtractor)),
        },
        Outcome::Recoverable(e) => Outcome::Recoverable(e),
        Outcome::Fatal(e) => Outcome::Fatal(e),
    }
}

/// Looks up the extractor that is called `name`.
pub fn find_extractor(name: &str) -> (found: Option<Extractor>)
    ensures
        found == extractor_named(name@),
{
    if str_equal(name, "NoneExtractor") {
        Some(Extractor::NoneExtractor)
    } else if str_equal(name, "PacketExtractor") {
        Some(Extractor::PacketExtractor)
    } else if str_equal(name, "EventCodeExtractor") {
        Some(Extractor::EventCodeExtractor)
    } else if str_equal(name, "EventProducerAddressExtractor") {
        Some(Extractor::EventProducerAddressExtractor)
    } else if str_equal(name, "MessageCodeExtractor") {
        Some(Extractor::MessageCodeExtractor)
    } else if str_equal(name, "MessageValueExtractor") {
        Some(Extractor::MessageValueExtractor)
    } else if str_equal(name, "ButtonIndexExtractor") {
        Some(Extractor::ButtonIndexExtractor)
    } else {
        None
    }
}

/// Takes the call of an extractor, `Name();`, from the front of `text`.
pub fn extractor<'a>(constants: &Constants, text: &'a str) -> (r: Result<
    (&'a str, Extractor),
    Failure,
>)
    ensures
        outcome(r) == spec_extractor(constants@, text@),
        shorter(text, r),
{
    let (rest, (name, arguments)) = item_call(constants, text, true)?;
    match find_extractor(name) {
        Some(found) => {
            expect_count(rest, 0, arguments.len())?;
            Ok((rest, found))
        },
        None => Err(Failure::recoverable(name, ErrorKind::UnknownExtractor)),
    }
}

} // verus!
