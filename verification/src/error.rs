//! Error taxonomy: key-registry errors, composition errors, update
//! request errors and opaque backend errors.  All of them are
//! returned to the caller as typed results; nothing is swallowed or
//! retried internally.

use vstd::prelude::*;

verus! {

/// Error of a key registry lookup: the symbolic name or numeric code
/// matches no registered key.
#[derive(Debug, Copy, Clone, PartialEq, Eq, Structural)]
pub enum ParseError {
    /// No registered variant corresponds to the given name or code.
    VariantNotFound,
}

/// Error of custom mixture construction.  The checks run in the
/// order in which the variants are declared; the first failure wins.
#[derive(Debug, Copy, Clone, PartialEq, Eq, Structural)]
pub enum CustomMixError {
    /// Fewer than two distinct components.
    NotEnoughComponents,
    /// A component is a refrigerant that is itself a predefined blend.
    InvalidComponent,
    /// A fraction lies outside the open interval between zero and one.
    InvalidFraction,
    /// The fractions do not sum to one within the fixed tolerance.
    InvalidFractionsSum,
}

/// Error of binary mixture construction.
#[derive(Debug, Copy, Clone, PartialEq, Eq, Structural)]
pub enum BinaryMixError {
    /// The fraction lies outside the fixed bounds of the mixture kind.
    InvalidFraction,
}

/// Opaque failure surfaced verbatim from the evaluation backend:
/// construction failure, update rejection, or property-evaluation
/// failure.  The code has meaning only to the backend that raised it.
#[derive(Debug, Copy, Clone, PartialEq, Eq, Structural)]
pub struct BackendError {
    /// Backend-defined failure code.
    pub code: u32,
}

/// Error of a fluid handle operation.
#[derive(Debug, Copy, Clone, PartialEq, Eq, Structural)]
pub enum FluidError {
    /// The two keyed inputs of an update request share the same
    /// parameter code, so they cannot determine a state.
    DuplicateParam,
    /// The backend rejected the operation.
    Backend(BackendError),
}

} // verus!
