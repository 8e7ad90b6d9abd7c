//! The object registry: element sets and their constants, kept by
//! identifier and asked for positions.
//!
//! A registry starts empty and is filled by its owner. Constants are
//! derived once, when an object is registered, and used for every query
//! after that. Queries change nothing in the registry.

use std::collections::HashMap;
use vstd::prelude::*;
use vstd::std_specs::hash::*;
use crate::elements::ElementSet;
use crate::elements::ElementSetModel;
use crate::frame::native_of;
use crate::frame::render_of;
use crate::frame::render_round_trip;
use crate::frame::to_render_frame;
use crate::model::model_constants;
use crate::model::ModelError;
use crate::propagator::minutes_since_epoch;
use crate::propagator::propagate;
use crate::propagator::state_at;
use crate::propagator::Prediction;
use crate::propagator::PropagationConstants;
use crate::propagator::PropagationError;
use crate::scalar::Vector3;

verus! {

broadcast use group_hash_axioms;

/// Why the registry refuses a registration or a query.
#[derive(Clone, Copy, Debug, PartialEq, Eq, Structural)]
pub enum RegistryError {
    /// No object is registered under the identifier.
    UnknownId,
    /// An object is registered under the identifier already.
    DuplicateId,
    /// The model cannot derive constants from the element set.
    InvalidElements,
    /// The object has no valid position at the instant asked for.
    Propagation(PropagationError),
}

/// What the registry keeps of one object: its element set, with the epoch,
/// and the constants derived from it.
#[derive(Debug)]
pub struct SatelliteState {
    elements: ElementSet,
    constants: PropagationConstants,
}

/// Element sets and their constants, by identifier.
#[derive(Debug)]
pub struct Registry {
    entries: HashMap<u32, SatelliteState>,
}

/// The state of the object that an element set describes, at an instant
/// given in milliseconds since 1970-01-01T00:00:00 UTC.
pub open spec fn located(elements: ElementSetModel, timestamp_millis: int) -> Result<
    Prediction,
    PropagationError,
> {
    match model_constants(elements.fields) {
        Ok(constants) => state_at(elements, constants, timestamp_millis),
        Err(_) => Err(PropagationError::Numerical),
    }
}

/// What a registration does: it is refused for an identifier that is taken,
/// then for an element set from which no constants can be derived.
pub open spec fn registration(objects: Map<u32, ElementSetModel>, id: u32, elements: ElementSetModel)
    -> Result<(), RegistryError> {
    if objects.contains_key(id) {
        Err(RegistryError::DuplicateId)
    } else if model_constants(elements.fields).is_err() {
        Err(RegistryError::InvalidElements)
    } else {
        Ok(())
    }
}

/// The state of a registered object at an instant, in the model's frame.
pub open spec fn predicted(objects: Map<u32, ElementSetModel>, id: u32, timestamp_millis: int)
    -> Result<Prediction, RegistryError> {
    if !objects.contains_key(id) {
        Err(RegistryError::UnknownId)
    } else {
        match located(objects[id], timestamp_millis) {
            Ok(prediction) => Ok(prediction),
            Err(e) => Err(RegistryError::Propagation(e)),
        }
    }
}

/// What a query leaves in the output buffer: the position in the render
/// frame, or what the buffer held before where there is no position.
pub open spec fn queried(
    objects: Map<u32, ElementSetModel>,
    id: u32,
    timestamp_millis: int,
    before: Vector3,
) -> Vector3 {
    match predicted(objects, id, timestamp_millis) {
        Ok(prediction) => render_of(prediction.position),
        Err(_) => before,
    }
}

impl View for SatelliteState {
    type V = ElementSetModel;

    closed spec fn view(&self) -> ElementSetModel {
        self.elements@
    }
}

impl SatelliteState {
    /// The constants are the ones that the model derives from the element
    /// set.
    #[verifier::type_invariant]
    pub closed spec fn well_formed(self) -> bool {
        &&& self.elements.well_formed()
        &&& model_constants(self.elements@.fields) == Ok::<sgp4::Constants, ModelError>(
            self.constants.model(),
        )
    }

    /// Derives the constants of an element set and keeps both.
    pub fn new(elements: ElementSet) -> (r: Result<SatelliteState, ModelError>)
        ensures
            match r {
                Ok(state) => state.well_formed() && state@ == elements@ && model_constants(
                    elements@.fields,
                ).is_ok(),
                Err(e) => model_constants(elements@.fields) == Err::<sgp4::Constants, ModelError>(
                    e,
                ),
            },
    {
        proof {
            use_type_invariant(&elements);
        }
        match crate::propagator::derive(&elements) {
            Ok(constants) => Ok(SatelliteState { elements, constants }),
            Err(e) => Err(e),
        }
    }

    /// The element set of the object.
    pub fn elements(&self) -> (elements: &ElementSet)
        ensures
            elements@ == self@,
    {
        &self.elements
    }

    /// The constants that were derived from the element set.
    pub fn constants(&self) -> (constants: &PropagationConstants)
        ensures
            model_constants(self@.fields) == Ok::<sgp4::Constants, ModelError>(constants.model()),
    {
        proof {
            use_type_invariant(self);
        }
        &self.constants
    }

    /// Position and velocity of the object at an instant given in
    /// milliseconds since 1970-01-01T00:00:00 UTC, in the model's frame.
    pub fn predict(&self, timestamp_millis: i64) -> (r: Result<Prediction, PropagationError>)
        ensures
            r == located(self@, timestamp_millis as int),
    {
        proof {
            use_type_invariant(self);
        }
        match minutes_since_epoch(&self.elements, timestamp_millis) {
            Some(minutes) => propagate(&self.constants, &minutes),
            None => Err(PropagationError::Numerical),
        }
    }
}

impl View for Registry {
    type V = Map<u32, ElementSetModel>;

    closed spec fn view(&self) -> Map<u32, ElementSetModel> {
        Map::new(|id: u32| self.entries@.contains_key(id), |id: u32| self.entries@[id]@)
    }
}

impl Registry {
    /// A registry without objects.
    pub fn new() -> (registry: Registry)
        ensures
            registry@ == Map::<u32, ElementSetModel>::empty(),
    {
        let registry = Registry { entries: HashMap::new() };
        assert(registry@ =~= Map::<u32, ElementSetModel>::empty());
        registry
    }

    /// The number of registered objects.
    pub fn len(&self) -> (n: usize)
        ensures
            n == self@.len(),
            self@.dom().finite(),
    {
        assert(self@.dom() =~= self.entries@.dom());
        self.entries.len()
    }

    /// Tells whether an object is registered under the identifier.
    pub fn contains(&self, id: u32) -> (b: bool)
        ensures
            b == self@.contains_key(id),
    {
        self.entries.contains_key(&id)
    }

    /// The epoch of a registered object, in milliseconds since
    /// 1970-01-01T00:00:00 UTC.
    pub fn epoch_millis(&self, id: u32) -> (r: Option<i64>)
        ensures
            match r {
                Some(millis) => self@.contains_key(id) && millis == self@[id].epoch_millis,
                None => !self@.contains_key(id),
            },
    {
        match self.entries.get(&id) {
            Some(state) => Some(state.elements.epoch_millis()),
            None => None,
        }
    }

    /// Registers an object: derives the constants of its element set and
    /// keeps them under the identifier. A refused registration changes
    /// nothing; an identifier that is taken is never overwritten.
    pub fn register(&mut self, id: u32, elements: ElementSet) -> (r: Result<(), RegistryError>)
        ensures
            r == registration(old(self)@, id, elements@),
            r.is_ok() ==> final(self)@ == old(self)@.insert(id, elements@),
            r.is_err() ==> final(self)@ == old(self)@,
    {
        if self.entries.contains_key(&id) {
            return Err(RegistryError::DuplicateId);
        }
        match SatelliteState::new(elements) {
            Ok(state) => {
                self.entries.insert(id, state);
                assert(self@ =~= old(self)@.insert(id, elements@));
                Ok(())
            },
            Err(_) => Err(RegistryError::InvalidElements),
        }
    }

    /// Position and velocity of a registered object at an instant given in
    /// milliseconds since 1970-01-01T00:00:00 UTC, in the model's frame.
    pub fn predict(&self, id: u32, timestamp_millis: i64) -> (r: Result<Prediction, RegistryError>)
        ensures
            r == predicted(self@, id, timestamp_millis as int),
    {
        match self.entries.get(&id) {
            Some(state) => match state.predict(timestamp_millis) {
                Ok(prediction) => Ok(prediction),
                Err(e) => Err(RegistryError::Propagation(e)),
            },
            None => Err(RegistryError::UnknownId),
        }
    }

    /// Writes the position of a registered object at an instant, in the
    /// render frame and in kilometres, into `out`. Where there is no
    /// position, for an unknown identifier or a failed propagation, `out`
    /// is left as it was.
    pub fn query(&self, id: u32, timestamp_millis: i64, out: &mut Vector3) -> (r: Result<
        (),
        RegistryError,
    >)
        ensures
            match r {
                Ok(_) => predicted(self@, id, timestamp_millis as int).is_ok(),
                Err(e) => predicted(self@, id, timestamp_millis as int) == Err::<
                    Prediction,
                    RegistryError,
                >(e),
            },
            *final(out) == queried(self@, id, timestamp_millis as int, *old(out)),
            r.is_err() ==> *final(out) == *old(out),
            !self@.contains_key(id) ==> r == Err::<(), RegistryError>(RegistryError::UnknownId),
    {
        match self.predict(id, timestamp_millis) {
            Ok(prediction) => {
                *out = to_render_frame(prediction.position);
                Ok(())
            },
            Err(e) => Err(e),
        }
    }
}

/// A query of an identifier that is not registered reports `UnknownId` and
/// leaves the output buffer untouched.
pub proof fn unknown_id_leaves_buffer(
    objects: Map<u32, ElementSetModel>,
    id: u32,
    timestamp_millis: int,
    before: Vector3,
)
    requires
        !objects.contains_key(id),
    ensures
        predicted(objects, id, timestamp_millis) == Err::<Prediction, RegistryError>(
            RegistryError::UnknownId,
        ),
        queried(objects, id, timestamp_millis, before) == before,
{
}

/// A query that fails, for whatever reason, leaves the output buffer
/// untouched; one that succeeds leaves in it a position that does not
/// depend on what the buffer held, and that the inverse change of frame
/// takes back to the position predicted.
pub proof fn query_writes_all_or_nothing(
    objects: Map<u32, ElementSetModel>,
    id: u32,
    timestamp_millis: int,
    before: Vector3,
    other: Vector3,
)
    ensures
        predicted(objects, id, timestamp_millis).is_err() ==> queried(
            objects,
            id,
            timestamp_millis,
            before,
        ) == before,
        predicted(objects, id, timestamp_millis) matches Ok(p) ==> queried(
            objects,
            id,
            timestamp_millis,
            before,
        ) == queried(objects, id, timestamp_millis, other) && native_of(
            queried(objects, id, timestamp_millis, before),
        ) == p.position,
{
    if let Ok(p) = predicted(objects, id, timestamp_millis) {
        render_round_trip(p.position);
    }
}

/// A registration never replaces an object: what was registered under an
/// identifier before is registered under it afterwards, and only the new
/// identifier is added.
pub proof fn registration_keeps_objects(
    objects: Map<u32, ElementSetModel>,
    id: u32,
    elements: ElementSetModel,
    other: u32,
)
    requires
        objects.contains_key(other),
    ensures
        registration(objects, id, elements).is_ok() ==> other != id && objects.insert(
            id,
            elements,
        )[other] == objects[other],
        registration(objects, other, elements) == Err::<(), RegistryError>(
            RegistryError::DuplicateId,
        ),
{
}

} // verus!
