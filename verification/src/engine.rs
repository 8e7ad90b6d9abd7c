//! The engine end to end: from element text to a registered object or to a
//! state vector.

use vstd::prelude::*;
use vstd::string::StringSliceAdditionalSpecFns;
use vstd::utf8::encode_utf8;
use crate::decay::below_surface;
use crate::elements::parse;
use crate::elements::parsed;
use crate::elements::ElementSetModel;
use crate::elements::ParseError;
use crate::model::model_constants;
use crate::model::model_minutes;
use crate::model::ModelError;
use crate::propagator::elapsed_minutes;
use crate::propagator::propagate;
use crate::propagator::propagated;
use crate::propagator::Prediction;
use crate::propagator::PropagationError;
use crate::registry::registration;
use crate::registry::Registry;
use crate::registry::RegistryError;
use crate::scalar::Scalar;

verus! {

/// The name of the International Space Station in element sets.
pub const ISS_NAME: &'static str = "ISS (ZARYA)";

/// The first line of an element set of the International Space Station,
/// with its epoch on day 194 of 2020.
pub const ISS_LINE_1: &'static str =
    "1 25544U 98067A   20194.88612269 -.00002218  00000-0 -31515-4 0  9992";

/// The second line of the same element set.
pub const ISS_LINE_2: &'static str =
    "2 25544  51.6461 221.2784 0001413  89.1723 280.4612 15.49507896236008";

/// The milliseconds in an hour.
pub const MILLIS_PER_HOUR: i64 = 3_600_000;

/// Any error of the engine.
#[derive(Clone, Copy, Debug, PartialEq, Eq, Structural)]
pub enum EngineError {
    Parse(ParseError),
    Model(ModelError),
    Propagation(PropagationError),
    Registry(RegistryError),
}

/// The state of the object that an element set describes, `elapsed`
/// milliseconds after its epoch.
pub open spec fn state_after(elements: ElementSetModel, elapsed: i64) -> Result<
    Prediction,
    EngineError,
> {
    match model_constants(elements.fields) {
        Err(e) => Err(EngineError::Model(e)),
        Ok(constants) => match model_minutes(elements.fields, elapsed) {
            None => Err(EngineError::Propagation(PropagationError::Numerical)),
            Some(minutes) => match propagated(constants, minutes) {
                Ok(prediction) => Ok(prediction),
                Err(e) => Err(EngineError::Propagation(e)),
            },
        },
    }
}

/// The state of the object that two lines describe, `elapsed` milliseconds
/// after their epoch: the lines parsed, constants derived, and the
/// propagator asked.
pub open spec fn state_from_text(name: Option<Seq<char>>, line1: Seq<u8>, line2: Seq<u8>, elapsed: i64)
    -> Result<Prediction, EngineError> {
    match parsed(name, line1, line2) {
        Err(e) => Err(EngineError::Parse(e)),
        Ok(elements) => state_after(elements, elapsed),
    }
}

/// What `add_tle` returns: the error of the parser, or else what the
/// registration of the parsed element set returns.
pub open spec fn added(
    objects: Map<u32, ElementSetModel>,
    id: u32,
    name: Seq<char>,
    line1: Seq<u8>,
    line2: Seq<u8>,
) -> Result<(), EngineError> {
    match parsed(Some(name), line1, line2) {
        Err(e) => Err(EngineError::Parse(e)),
        Ok(elements) => match registration(objects, id, elements) {
            Ok(_) => Ok(()),
            Err(e) => Err(EngineError::Registry(e)),
        },
    }
}

/// What `add_tle` leaves in the registry: the parsed element set under the
/// identifier where it succeeds, and what was there before where it fails.
pub open spec fn objects_after_adding(
    objects: Map<u32, ElementSetModel>,
    id: u32,
    name: Seq<char>,
    line1: Seq<u8>,
    line2: Seq<u8>,
) -> Map<u32, ElementSetModel> {
    match parsed(Some(name), line1, line2) {
        Ok(elements) if added(objects, id, name, line1, line2).is_ok() => objects.insert(
            id,
            elements,
        ),
        _ => objects,
    }
}

/// The first coordinate of the International Space Station's position, in
/// kilometres and in the model's frame, `hour` hours after the epoch of
/// its element set.
pub open spec fn ran(hour: u32) -> Result<Scalar, EngineError> {
    match state_from_text(
        Some(ISS_NAME@),
        ISS_LINE_1.spec_bytes(),
        ISS_LINE_2.spec_bytes(),
        (hour * MILLIS_PER_HOUR) as i64,
    ) {
        Ok(prediction) => Ok(prediction.position.x),
        Err(e) => Err(e),
    }
}

/// Parses two lines, derives their constants and evaluates position and
/// velocity `elapsed_millis` milliseconds after their epoch.
pub fn track(name: Option<String>, line1: &[u8], line2: &[u8], elapsed_millis: i64) -> (r: Result<
    Prediction,
    EngineError,
>)
    ensures
        r == state_from_text(crate::elements::name_view(name), line1@, line2@, elapsed_millis),
{
    let elements = match parse(name, line1, line2) {
        Ok(elements) => elements,
        Err(e) => {
            return Err(EngineError::Parse(e));
        },
    };
    let constants = match crate::propagator::derive(&elements) {
        Ok(constants) => constants,
        Err(e) => {
            return Err(EngineError::Model(e));
        },
    };
    let minutes = match elapsed_minutes(&elements, elapsed_millis) {
        Some(minutes) => minutes,
        None => {
            return Err(EngineError::Propagation(PropagationError::Numerical));
        },
    };
    match propagate(&constants, &minutes) {
        Ok(prediction) => Ok(prediction),
        Err(e) => Err(EngineError::Propagation(e)),
    }
}

/// Evaluates the International Space Station `hour` hours after the epoch
/// of its element set and returns the first coordinate of its position.
pub fn run(hour: u32) -> (r: Result<Scalar, EngineError>)
    ensures
        r == ran(hour),
{
    let elapsed: i64 = (hour as i64) * MILLIS_PER_HOUR;
    match track(
        Some(ISS_NAME.to_owned()),
        ISS_LINE_1.as_bytes(),
        ISS_LINE_2.as_bytes(),
        elapsed,
    ) {
        Ok(prediction) => Ok(prediction.position.x),
        Err(e) => Err(e),
    }
}

/// Parses an element set and registers it under an identifier. Where the
/// lines do not parse or the registration is refused, the registry is left
/// as it was.
pub fn add_tle(
    registry: &mut Registry,
    id: u32,
    satellite_name: String,
    line_1: String,
    line_2: String,
) -> (r: Result<(), EngineError>)
    ensures
        r == added(
            old(registry)@,
            id,
            satellite_name@,
            encode_utf8(line_1@),
            encode_utf8(line_2@),
        ),
        final(registry)@ == objects_after_adding(
            old(registry)@,
            id,
            satellite_name@,
            encode_utf8(line_1@),
            encode_utf8(line_2@),
        ),
{
    match parse(Some(satellite_name), line_1.as_str().as_bytes(), line_2.as_str().as_bytes()) {
        Ok(elements) => match registry.register(id, elements) {
            Ok(_) => Ok(()),
            Err(e) => Err(EngineError::Registry(e)),
        },
        Err(e) => Err(EngineError::Parse(e)),
    }
}

/// A state vector that comes out of the engine holds no infinity and no
/// NaN, and its position is not below the surface of the Earth, whatever
/// the element text and the instant.
pub proof fn state_from_text_is_physical(
    name: Option<Seq<char>>,
    line1: Seq<u8>,
    line2: Seq<u8>,
    elapsed: i64,
)
    ensures
        state_from_text(name, line1, line2, elapsed) matches Ok(p) ==> p.position.finite()
            && p.velocity.finite() && !below_surface(p.position),
{
}

} // verus!
