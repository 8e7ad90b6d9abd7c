//! Constants derivation and the propagator.
//!
//! The propagator is stateless: every prediction is computed from the
//! constants and the time since the epoch alone, the way the model's own
//! `propagate` does it, which restarts its resonance integrator on each
//! call. No correction state is carried from one call to the next, so
//! instants may be asked for in any order, and the same constants and the
//! same instant always give the same answer.

use vstd::prelude::*;
use crate::decay::below_surface;
use crate::decay::is_below_surface;
use crate::elements::ElementSet;
use crate::elements::ElementSetModel;
use crate::model::constants_from_elements;
use crate::model::minutes_after_epoch;
use crate::model::minutes_in_reach;
use crate::model::model_constants;
use crate::model::model_minutes;
use crate::model::model_prediction;
use crate::model::predict;
use crate::model::same_prediction;
use crate::model::ModelError;
use crate::model::ModelPrediction;
use crate::scalar::Scalar;
use crate::scalar::Vector3;

verus! {

/// Why there is no valid position at an instant.
#[derive(Clone, Copy, Debug, PartialEq, Eq, Structural)]
pub enum PropagationError {
    /// The object has decayed: drag has taken the orbit out of the model's
    /// range, or the position that the model gives lies below the surface
    /// of the Earth.
    Decayed,
    /// The model broke down: the instant cannot be expressed, the orbit
    /// came out non-physical, or a coordinate is an infinity or a NaN.
    Numerical,
}

/// Position and velocity in the model's inertial frame.
#[derive(Clone, Copy, Debug, PartialEq, Eq, Structural)]
pub struct Prediction {
    /// Kilometres.
    pub position: Vector3,
    /// Kilometres per second.
    pub velocity: Vector3,
}

/// The time-invariant values that the model derives once from an element
/// set. They are never changed.
#[derive(Debug)]
pub struct PropagationConstants {
    constants: sgp4::Constants,
}

/// An instant, in minutes since the epoch of an element set. It is made
/// of milliseconds by `elapsed_minutes` or `minutes_since_epoch`, and in no
/// other way.
#[derive(Debug)]
pub struct ElapsedMinutes {
    minutes: sgp4::MinutesSinceEpoch,
}

/// The vector that three bit patterns stand for.
pub open spec fn vector_of(bits: [u64; 3]) -> Vector3 {
    Vector3 { x: Scalar { bits: bits[0] }, y: Scalar { bits: bits[1] }, z: Scalar { bits: bits[2] } }
}

/// What the propagator makes of the model's prediction: a state vector
/// only if all its six numbers are finite and the position is not below
/// the surface of the Earth. It is `Decayed` where the position is below
/// the surface or drag has driven the eccentricity out of range, and
/// `Numerical` for every other breakdown.
pub open spec fn propagation_outcome(prediction: ModelPrediction) -> Result<
    Prediction,
    PropagationError,
> {
    match prediction {
        ModelPrediction::Predicted { position, velocity } => {
            if !vector_of(position).finite() || !vector_of(velocity).finite() {
                Err(PropagationError::Numerical)
            } else if below_surface(vector_of(position)) {
                Err(PropagationError::Decayed)
            } else {
                Ok(Prediction { position: vector_of(position), velocity: vector_of(velocity) })
            }
        },
        ModelPrediction::EccentricityOutOfRange => Err(PropagationError::Decayed),
        ModelPrediction::PerturbedEccentricityOutOfRange => Err(PropagationError::Numerical),
        ModelPrediction::NegativeSemiLatusRectum => Err(PropagationError::Numerical),
    }
}

/// The time from `epoch_millis` to `timestamp_millis`, if it fits in 64
/// bits.
pub open spec fn elapsed_millis(epoch_millis: int, timestamp_millis: int) -> Option<i64> {
    let elapsed = timestamp_millis - epoch_millis;
    if i64::MIN <= elapsed <= i64::MAX {
        Some(elapsed as i64)
    } else {
        None
    }
}

/// The instant `timestamp_millis`, given in milliseconds since
/// 1970-01-01T00:00:00 UTC, in minutes since the epoch of an element set.
pub open spec fn minutes_at(elements: ElementSetModel, timestamp_millis: int) -> Option<
    sgp4::MinutesSinceEpoch,
> {
    match elapsed_millis(elements.epoch_millis, timestamp_millis) {
        Some(elapsed) => model_minutes(elements.fields, elapsed),
        None => None,
    }
}

/// What `propagate` returns for the model's constants and an instant.
pub open spec fn propagated(constants: sgp4::Constants, minutes: sgp4::MinutesSinceEpoch) -> Result<
    Prediction,
    PropagationError,
> {
    propagation_outcome(model_prediction(constants, minutes))
}

/// The state of the object that an element set describes, at an instant
/// given in milliseconds since 1970-01-01T00:00:00 UTC, as it follows from
/// constants derived from that element set.
pub open spec fn state_at(
    elements: ElementSetModel,
    constants: sgp4::Constants,
    timestamp_millis: int,
) -> Result<Prediction, PropagationError> {
    match minutes_at(elements, timestamp_millis) {
        Some(minutes) => propagated(constants, minutes),
        None => Err(PropagationError::Numerical),
    }
}

impl PropagationConstants {
    /// The constants as the model holds them.
    pub closed spec fn model(self) -> sgp4::Constants {
        self.constants
    }
}

impl ElapsedMinutes {
    /// The minutes are some number of milliseconds after some epoch.
    #[verifier::type_invariant]
    pub closed spec fn well_formed(self) -> bool {
        minutes_in_reach(self.minutes)
    }

    /// The instant as the model holds it.
    pub closed spec fn model(self) -> sgp4::MinutesSinceEpoch {
        self.minutes
    }
}

/// Derives the propagation constants of an element set.
///
/// This is the expensive step: do it once for each element set and keep
/// the constants.
pub fn derive(elements: &ElementSet) -> (r: Result<PropagationConstants, ModelError>)
    ensures
        match r {
            Ok(c) => model_constants(elements@.fields) == Ok::<sgp4::Constants, ModelError>(
                c.model(),
            ),
            Err(e) => model_constants(elements@.fields) == Err::<sgp4::Constants, ModelError>(e),
        },
{
    match constants_from_elements(elements.fields()) {
        Ok(constants) => Ok(PropagationConstants { constants }),
        Err(e) => Err(e),
    }
}

/// Expresses the instant that lies `elapsed_millis` milliseconds after the
/// epoch of an element set in the model's minutes: the milliseconds
/// divided by 60000. Instants before the epoch have negative minutes.
/// There is `None` where the model cannot express the instant.
pub fn elapsed_minutes(elements: &ElementSet, elapsed_millis: i64) -> (r: Option<ElapsedMinutes>)
    ensures
        match r {
            Some(m) => model_minutes(elements@.fields, elapsed_millis) == Some(m.model()),
            None => model_minutes(elements@.fields, elapsed_millis).is_none(),
        },
{
    match minutes_after_epoch(elements.fields(), elapsed_millis) {
        Some(minutes) => Some(ElapsedMinutes { minutes }),
        None => None,
    }
}

/// Expresses an instant, given in milliseconds since 1970-01-01T00:00:00
/// UTC, in minutes since the epoch of an element set. There is `None`
/// where the time elapsed since the epoch does not fit in 64 bits or the
/// model cannot express the instant.
pub fn minutes_since_epoch(elements: &ElementSet, timestamp_millis: i64) -> (r: Option<
    ElapsedMinutes,
>)
    ensures
        match r {
            Some(m) => minutes_at(elements@, timestamp_millis as int) == Some(m.model()),
            None => minutes_at(elements@, timestamp_millis as int).is_none(),
        },
{
    match timestamp_millis.checked_sub(elements.epoch_millis()) {
        Some(elapsed) => elapsed_minutes(elements, elapsed),
        None => None,
    }
}

/// Sorts the model's prediction into a state vector or an error.
pub fn outcome_of(prediction: ModelPrediction) -> (r: Result<Prediction, PropagationError>)
    ensures
        r == propagation_outcome(prediction),
{
    match prediction {
        ModelPrediction::Predicted { position, velocity } => {
            let p = Vector3 {
                x: Scalar { bits: position[0] },
                y: Scalar { bits: position[1] },
                z: Scalar { bits: position[2] },
            };
            let v = Vector3 {
                x: Scalar { bits: velocity[0] },
                y: Scalar { bits: velocity[1] },
                z: Scalar { bits: velocity[2] },
            };
            if !p.is_finite() || !v.is_finite() {
                Err(PropagationError::Numerical)
            } else if is_below_surface(&p) {
                Err(PropagationError::Decayed)
            } else {
                Ok(Prediction { position: p, velocity: v })
            }
        },
        ModelPrediction::EccentricityOutOfRange => Err(PropagationError::Decayed),
        ModelPrediction::PerturbedEccentricityOutOfRange => Err(PropagationError::Numerical),
        ModelPrediction::NegativeSemiLatusRectum => Err(PropagationError::Numerical),
    }
}

/// Evaluates position and velocity at an instant.
///
/// The result is a function of the constants and the instant alone. A
/// state vector is returned only if all its numbers are finite and the
/// position is not below the surface of the Earth; an error means that
/// there is no valid position at this instant, and another instant may
/// well have one.
pub fn propagate(constants: &PropagationConstants, minutes: &ElapsedMinutes) -> (r: Result<
    Prediction,
    PropagationError,
>)
    ensures
        r == propagated(constants.model(), minutes.model()),
{
    proof {
        use_type_invariant(minutes);
    }
    let prediction = predict(&constants.constants, minutes.minutes);
    proof {
        outcome_respects_agreement(prediction, model_prediction(constants.model(), minutes.model()));
    }
    outcome_of(prediction)
}

/// Predictions that stand for the same outcome are sorted alike: where a
/// number may differ between them it is no finite number in either, and
/// such a prediction is refused whatever the pattern.
pub proof fn outcome_respects_agreement(a: ModelPrediction, b: ModelPrediction)
    requires
        same_prediction(a, b),
    ensures
        propagation_outcome(a) == propagation_outcome(b),
{
}

/// Propagation is deterministic: the same constants and the same instant
/// give the same result, bit for bit.
pub proof fn propagation_is_deterministic(
    constants1: PropagationConstants,
    minutes1: ElapsedMinutes,
    constants2: PropagationConstants,
    minutes2: ElapsedMinutes,
)
    requires
        constants1.model() == constants2.model(),
        minutes1.model() == minutes2.model(),
    ensures
        propagated(constants1.model(), minutes1.model()) == propagated(
            constants2.model(),
            minutes2.model(),
        ),
{
}

/// A state vector that the propagator returns holds no infinity and no
/// NaN, and its position is not below the surface of the Earth.
pub proof fn prediction_is_physical(prediction: ModelPrediction)
    ensures
        propagation_outcome(prediction) matches Ok(p) ==> p.position.finite()
            && p.velocity.finite() && !below_surface(p.position),
{
}

/// The propagator reports `Decayed` exactly where the model finds the
/// eccentricity driven out of range by drag, or gives finite numbers for a
/// position below the surface of the Earth. No such position is handed
/// out.
pub proof fn decayed_means_out_of_range_or_below_surface(prediction: ModelPrediction)
    ensures
        propagation_outcome(prediction) == Err::<Prediction, PropagationError>(
            PropagationError::Decayed,
        ) <==> (prediction is EccentricityOutOfRange || (prediction matches ModelPrediction::Predicted {
            position,
            velocity,
        } && vector_of(position).finite() && vector_of(velocity).finite() && below_surface(
            vector_of(position),
        ))),
{
}

} // verus!
