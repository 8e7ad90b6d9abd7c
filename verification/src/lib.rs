//! A satellite propagation and coordinate-transform engine.
//!
//! The engine answers one question, for one or many tracked objects: where
//! is object X at time T? Element text is parsed into an element set
//! ([`elements`]), propagation constants are derived from it once and an
//! instant is evaluated from them ([`propagator`]), positions that lie
//! inside the Earth are told from positions in orbit ([`decay`]), and the
//! result is handed out in the frame of the rendering target ([`frame`]).
//! A [`registry`] keeps the objects by identifier, and [`engine`] runs the
//! whole path from text to position.
//!
//! The perturbation model is that of the `sgp4` crate; [`model`] holds all
//! that the engine believes of it. Real numbers travel through the engine
//! as bit patterns ([`scalar`]): the engine moves them and looks at their
//! bits, and leaves the arithmetic to the model.
//!
//! Times are whole milliseconds since 1970-01-01T00:00:00 UTC, lengths are
//! kilometres, speeds kilometres per second.

pub mod decay;
pub mod elements;
pub mod engine;
pub mod frame;
pub mod model;
pub mod propagator;
pub mod registry;
pub mod satellite;
pub mod scalar;

pub use crate::elements::parse;
pub use crate::elements::ElementSet;
pub use crate::elements::ParseError;
pub use crate::engine::add_tle;
pub use crate::engine::EngineError;
pub use crate::frame::create_vector_array;
pub use crate::frame::from_render_frame;
pub use crate::frame::to_render_frame;
pub use crate::model::ModelError;
pub use crate::propagator::propagate;
pub use crate::propagator::ElapsedMinutes;
pub use crate::propagator::Prediction;
pub use crate::propagator::PropagationConstants;
pub use crate::propagator::PropagationError;
pub use crate::registry::Registry;
pub use crate::registry::RegistryError;
pub use crate::registry::SatelliteState;
pub use crate::satellite::create_satellite;
pub use crate::satellite::Satellite;
pub use crate::scalar::Scalar;
pub use crate::scalar::Vector3;
