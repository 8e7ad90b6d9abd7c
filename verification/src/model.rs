//! The propagation model: everything the engine takes from the `sgp4` crate.
//!
//! The model's values pass through the engine unopened. What the model
//! computes is too long to state, but it is computed from the arguments
//! alone, so each result has a name here, and the functions that make the
//! calls are believed to return what the names stand for. Nothing in this
//! file is proved; everything outside it is.

use vstd::prelude::*;
use crate::scalar::finite_bits;

verus! {

/// The length of one line of an element set.
pub const LINE_LENGTH: usize = 69;

/// An element set as the model holds it.
#[verifier::external_type_specification]
#[verifier::external_body]
pub struct ExElements(sgp4::Elements);

/// The constants that the model derives from an element set.
#[verifier::external_type_specification]
#[verifier::external_body]
pub struct ExConstants(sgp4::Constants);

/// A time in minutes, counted from the epoch of an element set.
#[verifier::external_type_specification]
#[verifier::external_body]
pub struct ExMinutesSinceEpoch(sgp4::MinutesSinceEpoch);

/// The model's account of why two lines are no element set.
#[verifier::external_type_specification]
#[verifier::external_body]
pub struct ExTleError(sgp4::TleError);

/// Why the model cannot start from an element set.
#[derive(Clone, Copy, Debug, PartialEq, Eq, Structural)]
pub enum ModelError {
    /// The mean motion is zero or negative, as the element set gives it or
    /// once converted to the model's own convention.
    MeanMotionNotPositive,
    /// The eccentricity at epoch is outside [0, 1).
    EccentricityOutOfRange,
}

/// What the model makes of one instant: a state vector, as six bit
/// patterns, or the reason why it gives none.
#[derive(Clone, Copy, Debug)]
pub enum ModelPrediction {
    /// Position in km and velocity in km/s, in the model's inertial frame.
    Predicted { position: [u64; 3], velocity: [u64; 3] },
    /// Drag has driven the mean eccentricity out of the range that the
    /// model accepts.
    EccentricityOutOfRange,
    /// The eccentricity left [0, 1] once the pull of sun and moon was added.
    PerturbedEccentricityOutOfRange,
    /// The semi-latus rectum of the orbit came out negative.
    NegativeSemiLatusRectum,
}

/// A line that the model's parser can be given: 69 bytes of ASCII, the last
/// of them a digit.
pub open spec fn line_is_framed(line: Seq<u8>) -> bool {
    &&& line.len() == LINE_LENGTH
    &&& forall|i: int| 0 <= i < line.len() ==> #[trigger] line[i] < 0x80
    &&& 0x30 <= line[LINE_LENGTH - 1] <= 0x39
}

/// Two bit patterns that stand for the same outcome of a computation: the
/// same pattern, or two patterns of which neither is a finite number (the
/// sign and payload of a NaN are not determined by the operands).
pub open spec fn same_number(a: u64, b: u64) -> bool {
    a == b || (!finite_bits(a) && !finite_bits(b))
}

/// `same_number`, component by component.
pub open spec fn same_vector(a: [u64; 3], b: [u64; 3]) -> bool {
    same_number(a[0], b[0]) && same_number(a[1], b[1]) && same_number(a[2], b[2])
}

/// Two predictions that stand for the same outcome: the same refusal, or
/// state vectors that agree in every component.
pub open spec fn same_prediction(a: ModelPrediction, b: ModelPrediction) -> bool {
    match (a, b) {
        (
            ModelPrediction::Predicted { position: pa, velocity: va },
            ModelPrediction::Predicted { position: pb, velocity: vb },
        ) => same_vector(pa, pb) && same_vector(va, vb),
        _ => a == b,
    }
}

/// The element set that the model reads from two lines, if it reads one.
pub uninterp spec fn model_elements(line1: Seq<u8>, line2: Seq<u8>) -> Option<sgp4::Elements>;

/// The epoch of an element set, in milliseconds since 1970-01-01T00:00:00
/// UTC, leap seconds not counted.
pub uninterp spec fn model_epoch_millis(elements: sgp4::Elements) -> i64;

/// The constants that the model derives from an element set, or the reason
/// why it derives none.
pub uninterp spec fn model_constants(elements: sgp4::Elements) -> Result<
    sgp4::Constants,
    ModelError,
>;

/// The instant that lies `elapsed_millis` milliseconds after the epoch of
/// an element set, in the model's minutes, if the model can express it.
pub uninterp spec fn model_minutes(elements: sgp4::Elements, elapsed_millis: i64) -> Option<
    sgp4::MinutesSinceEpoch,
>;

/// The minutes are within the model's reach: they are what the model has
/// made of some number of milliseconds after some epoch. Such minutes are
/// a count of nanoseconds that fits in 64 bits, divided by sixty thousand
/// million: a finite number, below 154 million in magnitude.
pub open spec fn minutes_in_reach(minutes: sgp4::MinutesSinceEpoch) -> bool {
    exists|elements: sgp4::Elements, elapsed_millis: i64|
        model_minutes(elements, elapsed_millis) == Some(minutes)
}

/// The model's prediction from its constants for one instant.
pub uninterp spec fn model_prediction(
    constants: sgp4::Constants,
    minutes: sgp4::MinutesSinceEpoch,
) -> ModelPrediction;

/// Calls `sgp4::Elements::from_tle` without an object name. The result is
/// `Ok` exactly when the two lines have an element set under
/// `model_elements`, and then it is that element set. Lines that are not
/// framed are kept away from the parser, which reads its fields as text
/// without checking the encoding and subtracts `'0'` from the last byte.
#[verifier::external_body]
pub(crate) fn elements_from_tle(line1: &[u8], line2: &[u8]) -> (r: Result<
    sgp4::Elements,
    sgp4::TleError,
>)
    requires
        line_is_framed(line1@),
        line_is_framed(line2@),
    ensures
        r.is_ok() == model_elements(line1@, line2@).is_some(),
        r matches Ok(e) ==> model_elements(line1@, line2@) == Some(e),
{
    sgp4::Elements::from_tle(None, line1, line2)
}

/// Reads the field `datetime` of `sgp4::Elements` as a UTC timestamp in
/// milliseconds (`chrono::NaiveDateTime::and_utc`, then
/// `chrono::DateTime::timestamp_millis`).
#[verifier::external_body]
pub(crate) fn epoch_millis_of(elements: &sgp4::Elements) -> (r: i64)
    ensures
        r == model_epoch_millis(*elements),
{
    elements.datetime.and_utc().timestamp_millis()
}

/// Calls `sgp4::Constants::from_elements`, which uses the WGS84 geopotential
/// and the IAU sidereal time. The result is what `model_constants` names:
/// the constants, or which of the two kinds the model's refusal is of.
#[verifier::external_body]
pub(crate) fn constants_from_elements(elements: &sgp4::Elements) -> (r: Result<
    sgp4::Constants,
    ModelError,
>)
    ensures
        r == model_constants(*elements),
{
    match sgp4::Constants::from_elements(elements) {
        Ok(constants) => Ok(constants),
        Err(sgp4::ElementsError::KozaiElementsError(
            sgp4::KozaiElementsError::NegativeKozaiMeanMotion,
        )) => Err(ModelError::MeanMotionNotPositive),
        Err(sgp4::ElementsError::KozaiElementsError(
            sgp4::KozaiElementsError::NegativeBrouwerMeanMotion,
        )) => Err(ModelError::MeanMotionNotPositive),
        Err(sgp4::ElementsError::OutOfRangeEpochEccentricity(_)) => Err(
            ModelError::EccentricityOutOfRange,
        ),
    }
}

/// Calls `sgp4::Elements::datetime_to_minutes_since_epoch` on the instant
/// that `chrono` finds `elapsed_millis` milliseconds after the epoch. The
/// result is what `model_minutes` names: `None` where the instant or the
/// distance to it, in nanoseconds, does not fit.
#[verifier::external_body]
pub(crate) fn minutes_after_epoch(elements: &sgp4::Elements, elapsed_millis: i64) -> (r: Option<
    sgp4::MinutesSinceEpoch,
>)
    ensures
        r == model_minutes(*elements, elapsed_millis),
{
    let delta = sgp4::chrono::TimeDelta::try_milliseconds(elapsed_millis)?;
    let instant = elements.datetime.checked_add_signed(delta)?;
    elements.datetime_to_minutes_since_epoch(&instant).ok()
}

/// Calls `sgp4::Constants::propagate`, which starts from the epoch on every
/// call and keeps nothing between calls. The result stands for the same
/// outcome as what `model_prediction` names: the same refusal, or the same
/// six numbers. For an orbit in resonance with the Earth's rotation the
/// model walks from the epoch to the instant in steps of 720 minutes, and
/// never arrives at an infinity or a NaN: only minutes within the model's
/// reach, which are finite, are handed to it.
#[verifier::external_body]
pub(crate) fn predict(constants: &sgp4::Constants, minutes: sgp4::MinutesSinceEpoch) -> (r:
    ModelPrediction)
    requires
        minutes_in_reach(minutes),
    ensures
        same_prediction(r, model_prediction(*constants, minutes)),
{
    match constants.propagate(minutes) {
        Ok(p) => ModelPrediction::Predicted {
            position: [p.position[0].to_bits(), p.position[1].to_bits(), p.position[2].to_bits()],
            velocity: [p.velocity[0].to_bits(), p.velocity[1].to_bits(), p.velocity[2].to_bits()],
        },
        Err(sgp4::Error::OutOfRangeEccentricity { .. }) => ModelPrediction::EccentricityOutOfRange,
        Err(sgp4::Error::OutOfRangePerturbedEccentricity { .. }) => {
            ModelPrediction::PerturbedEccentricityOutOfRange
        },
        Err(sgp4::Error::NegativeSemiLatusRectum { .. }) => ModelPrediction::NegativeSemiLatusRectum,
    }
}

} // verus!
