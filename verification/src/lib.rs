//! Type-safe orchestration layer around a thermophysical-property
//! evaluation backend.
//!
//! A caller describes a substance (pure fluid, incompressible fluid,
//! refrigerant, predefined or custom mixture, incompressible binary
//! mixture), supplies a thermodynamically independent pair of state
//! inputs, and retrieves derived properties by name.  The typestate
//! of the fluid handle guarantees at compile time that no property
//! can be queried before a valid state has been established, and a
//! per-instance cache guarantees that repeated queries for the same
//! property do not re-invoke the (expensive) backend evaluation.
//!
//! All numeric magnitudes are fixed-point integers in nano units:
//! a ratio of one is `1_000_000_000`, a pressure of one pascal is
//! `1_000_000_000` nanopascals, and so on.

use vstd::prelude::*;

pub mod backend;
pub mod binary_mix;
pub mod code_map;
pub mod custom_mix;
pub mod error;
pub mod fluid;
pub mod fluid_input;
pub mod fluid_param;
pub mod humid_air_param;
pub mod phase;
pub mod registry;
pub mod substance;
pub mod update_request;

verus! {

/// Typestate tag of a fluid handle on which no update has been
/// performed yet: state-dependent properties cannot be queried.
#[derive(Debug, Copy, Clone, PartialEq, Eq, Structural)]
pub struct UndefinedState;

/// Typestate tag of a fluid handle whose thermodynamic state has been
/// established by an update: all properties can be queried.
#[derive(Debug, Copy, Clone, PartialEq, Eq, Structural)]
pub struct DefinedState;

} // verus!
