//! Deterministic flight and water-surface dynamics of a single seaplane.
//!
//! Every quantity is a fixed-point number: an `i64` that counts millionths of
//! its unit (metres, metres per second, radians, seconds). The per-tick
//! pipeline runs the control mapper, the bank and turn model, the
//! water-contact regime and the momentum integrator, in that order, over an
//! exclusively owned [`resources::PlaneState`].

pub mod bank_model;
pub mod components;
pub mod constants;
pub mod contact;
pub mod control_mapper;
pub mod environment_systems;
pub mod fixed;
pub mod guarantees;
pub mod momentum;
pub mod plane_systems;
pub mod resources;
pub mod setup;
pub mod ui;
pub mod vector;
pub mod vehicle;
pub mod water_regime;
