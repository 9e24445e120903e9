//! Update requests: the unordered pair of two keyed inputs with
//! distinct parameter codes that transitions a fluid handle into the
//! defined state.  A pair sharing one parameter code cannot
//! determine a state and is rejected before the backend is reached.

use vstd::prelude::*;

use crate::error::FluidError;
use crate::fluid_input::{FluidInput, KeyedInput};
use crate::fluid_param::{lemma_fluid_param_code_round_trip, FluidParam};

verus! {

/// Distinct fluid parameters carry distinct codes.
pub proof fn lemma_fluid_param_code_injective(p: FluidParam, q: FluidParam)
    ensures
        p != q ==> p.code_spec() != q.code_spec(),
{
    if p.code_spec() == q.code_spec() {
        lemma_fluid_param_code_round_trip(p, 0);
        lemma_fluid_param_code_round_trip(q, 0);
    }
}

/// The canonical form of an update request built from two keyed
/// inputs: rejected when the parameter codes coincide, and otherwise
/// the two (code, magnitude) pairs ordered by code.
pub open spec fn request_spec(a: FluidInput, b: FluidInput) -> Result<
    ((u8, i64), (u8, i64)),
    FluidError,
> {
    if a.key_spec() == b.key_spec() {
        Err(FluidError::DuplicateParam)
    } else if a.key_spec().code_spec() < b.key_spec().code_spec() {
        Ok(
            (
                (a.key_spec().code_spec(), a.si_value_spec()),
                (b.key_spec().code_spec(), b.si_value_spec()),
            ),
        )
    } else {
        Ok(
            (
                (b.key_spec().code_spec(), b.si_value_spec()),
                (a.key_spec().code_spec(), a.si_value_spec()),
            ),
        )
    }
}

/// An update request is an unordered pair: building it from the two
/// inputs in either order gives the same canonical request.
pub proof fn lemma_request_unordered(a: FluidInput, b: FluidInput)
    ensures
        request_spec(a, b) == request_spec(b, a),
{
    lemma_fluid_param_code_injective(a.key_spec(), b.key_spec());
}

/// An update request: two keyed inputs with distinct parameter
/// codes, held in canonical order.
#[derive(Debug, Copy, Clone, PartialEq, Eq, Structural)]
pub struct FluidUpdateRequest {
    key1: u8,
    value1: i64,
    key2: u8,
    value2: i64,
}

impl FluidUpdateRequest {
    /// The lower-coded half of the request.
    pub closed spec fn first_spec(self) -> (u8, i64) {
        (self.key1, self.value1)
    }

    /// The higher-coded half of the request.
    pub closed spec fn second_spec(self) -> (u8, i64) {
        (self.key2, self.value2)
    }

    /// The two halves carry distinct codes, in ascending order.
    pub open spec fn wf(self) -> bool {
        self.first_spec().0 < self.second_spec().0
    }

    /// Combine two keyed inputs into an update request.  Succeeds
    /// exactly when the two parameter codes differ, and fails fast
    /// with the duplicate-parameter error otherwise.
    pub fn try_new(a: FluidInput, b: FluidInput) -> (r: Result<FluidUpdateRequest, FluidError>)
        ensures
            match r {
                Ok(req) => {
                    &&& a.key_spec() != b.key_spec()
                    &&& request_spec(a, b) == Ok::<((u8, i64), (u8, i64)), FluidError>(
                        (req.first_spec(), req.second_spec()),
                    )
                    &&& req.wf()
                },
                Err(e) => {
                    &&& a.key_spec() == b.key_spec()
                    &&& e == FluidError::DuplicateParam
                },
            },
    {
        let ka = a.key().code();
        let kb = b.key().code();
        proof {
            lemma_fluid_param_code_injective(a.key_spec(), b.key_spec());
        }
        if ka == kb {
            Err(FluidError::DuplicateParam)
        } else if ka < kb {
            Ok(
                FluidUpdateRequest {
                    key1: ka,
                    value1: a.si_value(),
                    key2: kb,
                    value2: b.si_value(),
                },
            )
        } else {
            Ok(
                FluidUpdateRequest {
                    key1: kb,
                    value1: b.si_value(),
                    key2: ka,
                    value2: a.si_value(),
                },
            )
        }
    }

    /// The lower-coded half of the request.
    pub fn first(&self) -> (r: (u8, i64))
        ensures
            r == self.first_spec(),
    {
        (self.key1, self.value1)
    }

    /// The higher-coded half of the request.
    pub fn second(&self) -> (r: (u8, i64))
        ensures
            r == self.second_spec(),
    {
        (self.key2, self.value2)
    }
}

} // verus!
