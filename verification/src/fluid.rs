//! The state-resolution and caching engine: a typestate-governed
//! fluid handle that owns one substance identity and one backend
//! handle, tracks the last applied update request, and routes every
//! property read through a per-instance cache.
//!
//! A handle starts in [`UndefinedState`], where only trivial
//! (state-independent) properties can be queried.  A successful
//! `update` consumes it and yields a handle in [`DefinedState`];
//! there is no way back.  Querying a state-dependent property before
//! an update is a compile-time error, not a runtime check.

use vstd::prelude::*;

use core::marker::PhantomData;

use crate::backend::Backend;
use crate::code_map::CodeMap;
use crate::error::FluidError;
use crate::fluid_input::{FluidInput, KeyedInput};
use crate::fluid_param::{FluidParam, FluidTrivialParam};
use crate::substance::Substance;
use crate::update_request::{request_spec, FluidUpdateRequest};
use crate::{DefinedState, UndefinedState};

verus! {

/// Provider of thermophysical properties of one substance.
///
/// The type parameter `B` is the backend capability the handle
/// evaluates against; `S` is the typestate tag, [`DefinedState`] or
/// [`UndefinedState`].  Which operations exist depends on `S`.
#[derive(Debug)]
pub struct Fluid<B, S = DefinedState> {
    substance: Substance,
    backend: B,
    update_request: Option<FluidUpdateRequest>,
    trivial_outputs: CodeMap,
    outputs: CodeMap,
    state: PhantomData<S>,
}

impl<B, S> Fluid<B, S> {
    /// The substance the handle was created over.
    pub closed spec fn substance_spec(self) -> Substance {
        self.substance
    }

    /// The backend handle the engine owns.
    pub closed spec fn backend_spec(self) -> B {
        self.backend
    }

    /// The last applied update request, if any.
    pub closed spec fn request_spec(self) -> Option<FluidUpdateRequest> {
        self.update_request
    }

    /// The cache of state-dependent outputs, keyed by parameter
    /// code.
    pub closed spec fn outputs_spec(self) -> Map<u8, i64> {
        self.outputs.view_spec()
    }

    /// The cache of trivial (state-independent) outputs, keyed by
    /// their own code space.
    pub closed spec fn trivial_outputs_spec(self) -> Map<u8, i64> {
        self.trivial_outputs.view_spec()
    }

    /// The substance the handle was created over.
    pub fn substance(&self) -> (r: &Substance)
        ensures
            *r == self.substance_spec(),
    {
        &self.substance
    }

    /// The backend handle the engine owns.
    pub fn backend(&self) -> (r: &B)
        ensures
            *r == self.backend_spec(),
    {
        &self.backend
    }
}

impl<B: Backend, S> Fluid<B, S> {
    /// Retrieve a trivial, composition-independent property, in nano
    /// SI units.  Available in either state, since such properties
    /// do not depend on a resolved state.  On a cache hit the cached
    /// value is returned and nothing else happens; on a miss the
    /// backend is queried once and a successful result is cached.
    /// Trivial cache entries are never invalidated.  A backend
    /// failure is surfaced as-is and nothing is cached.
    pub fn trivial_output(&mut self, param: FluidTrivialParam) -> (r: Result<i64, FluidError>)
        ensures
            final(self).substance_spec() == old(self).substance_spec(),
            final(self).request_spec() == old(self).request_spec(),
            final(self).outputs_spec() == old(self).outputs_spec(),
            old(self).trivial_outputs_spec().contains_key(param.code_spec()) ==> {
                &&& r == Ok::<i64, FluidError>(
                    old(self).trivial_outputs_spec()[param.code_spec()],
                )
                &&& final(self).trivial_outputs_spec() == old(self).trivial_outputs_spec()
                &&& final(self).backend_spec() == old(self).backend_spec()
            },
            match r {
                Ok(v) => {
                    &&& final(self).trivial_outputs_spec().contains_key(param.code_spec())
                    &&& final(self).trivial_outputs_spec()[param.code_spec()] == v
                    &&& final(self).trivial_outputs_spec() == old(
                        self,
                    ).trivial_outputs_spec().insert(param.code_spec(), v)
                },
                Err(e) => {
                    &&& e matches FluidError::Backend(_)
                    &&& !old(self).trivial_outputs_spec().contains_key(param.code_spec())
                    &&& final(self).trivial_outputs_spec() == old(self).trivial_outputs_spec()
                },
            },
    {
        let code = param.code();
        match self.trivial_outputs.get(code) {
            Some(v) => {
                proof {
                    assert(old(self).trivial_outputs_spec().insert(code, v) =~= old(
                        self,
                    ).trivial_outputs_spec());
                }
                Ok(v)
            },
            None => {
                match self.backend.keyed_output(code) {
                    Ok(v) => {
                        self.trivial_outputs.insert(code, v);
                        Ok(v)
                    },
                    Err(e) => Err(FluidError::Backend(e)),
                }
            },
        }
    }
}

impl<B: Backend> Fluid<B, UndefinedState> {
    /// Create a handle in the undefined state over a substance and a
    /// backend handle for it.  For a binary or custom mixture the
    /// composition's fraction vector — exactly
    /// [`Substance::fraction_values`] of the substance — is handed
    /// to the backend first; if the backend rejects it, the error is
    /// surfaced and nothing is created.  For every other substance
    /// the backend is not touched and construction cannot fail.
    pub fn try_new(substance: Substance, backend: B) -> (r: Result<
        Fluid<B, UndefinedState>,
        FluidError,
    >)
        ensures
            match r {
                Ok(f) => {
                    &&& f.substance_spec() == substance
                    &&& f.request_spec() is None
                    &&& f.outputs_spec() == Map::<u8, i64>::empty()
                    &&& f.trivial_outputs_spec() == Map::<u8, i64>::empty()
                    &&& !(substance is BinaryMix || substance is CustomMix) ==> f.backend_spec()
                        == backend
                },
                Err(e) => {
                    &&& e matches FluidError::Backend(_)
                    &&& (substance is BinaryMix || substance is CustomMix)
                },
            },
    {
        let mut backend = backend;
        let fraction_result: Result<(), crate::error::BackendError> = match &substance {
            Substance::BinaryMix(_) | Substance::CustomMix(_) => {
                let fractions = substance.fraction_values();
                backend.set_fractions(&fractions)
            },
            _ => Ok(()),
        };
        match fraction_result {
            Ok(()) => Ok(
                Fluid {
                    substance,
                    backend,
                    update_request: None,
                    trivial_outputs: CodeMap::new(),
                    outputs: CodeMap::new(),
                    state: PhantomData,
                },
            ),
            Err(e) => Err(FluidError::Backend(e)),
        }
    }

    /// Apply the first update request, consuming the undefined-state
    /// handle.  The two keyed inputs must carry distinct parameter
    /// codes; a pair sharing one code is rejected before the backend
    /// is reached.  On backend acceptance the request is stored and
    /// a defined-state handle is returned; the handle can never
    /// revert to the undefined state.
    pub fn update(self, input1: FluidInput, input2: FluidInput) -> (r: Result<
        Fluid<B, DefinedState>,
        FluidError,
    >)
        ensures
            match r {
                Ok(f) => {
                    &&& request_spec(input1, input2) matches Ok(pair) && f.request_spec()
                        matches Some(req) && req.first_spec() == pair.0 && req.second_spec()
                        == pair.1
                    &&& f.substance_spec() == self.substance_spec()
                    &&& f.outputs_spec() == Map::<u8, i64>::empty()
                    &&& f.trivial_outputs_spec() == self.trivial_outputs_spec()
                },
                Err(e) => {
                    &&& (input1.key_spec() == input2.key_spec() <==> e
                        == FluidError::DuplicateParam)
                    &&& (input1.key_spec() != input2.key_spec() ==> e matches FluidError::Backend(
                        _,
                    ))
                },
            },
    {
        let request = match FluidUpdateRequest::try_new(input1, input2) {
            Ok(request) => request,
            Err(e) => {
                return Err(e);
            },
        };
        let Fluid { substance, mut backend, update_request: _, trivial_outputs, outputs: _, state: _ } =
            self;
        let (key1, value1) = request.first();
        let (key2, value2) = request.second();
        match backend.update(key1, value1, key2, value2) {
            Ok(()) => Ok(
                Fluid {
                    substance,
                    backend,
                    update_request: Some(request),
                    trivial_outputs,
                    outputs: CodeMap::new(),
                    state: PhantomData,
                },
            ),
            Err(e) => Err(FluidError::Backend(e)),
        }
    }
}

impl<B: Backend> Fluid<B, DefinedState> {
    /// Apply a further update request.  The update is all-or-nothing:
    /// a pair sharing one parameter code is rejected before the
    /// backend is reached and the handle — backend included — is
    /// left untouched; on backend rejection the prior request and
    /// both caches are kept; on acceptance the new request replaces
    /// the old one and the state-dependent cache is cleared in full.
    /// The trivial cache survives every update.
    pub fn update(&mut self, input1: FluidInput, input2: FluidInput) -> (r: Result<
        (),
        FluidError,
    >)
        ensures
            final(self).substance_spec() == old(self).substance_spec(),
            final(self).trivial_outputs_spec() == old(self).trivial_outputs_spec(),
            match r {
                Ok(()) => {
                    &&& request_spec(input1, input2) matches Ok(pair) && final(self).request_spec()
                        matches Some(req) && req.first_spec() == pair.0 && req.second_spec()
                        == pair.1
                    &&& final(self).outputs_spec() == Map::<u8, i64>::empty()
                },
                Err(e) => {
                    &&& final(self).request_spec() == old(self).request_spec()
                    &&& final(self).outputs_spec() == old(self).outputs_spec()
                    &&& (input1.key_spec() == input2.key_spec() <==> e
                        == FluidError::DuplicateParam)
                    &&& (input1.key_spec() == input2.key_spec() ==> final(self).backend_spec()
                        == old(self).backend_spec())
                    &&& (input1.key_spec() != input2.key_spec() ==> e matches FluidError::Backend(
                        _,
                    ))
                },
            },
    {
        let request = match FluidUpdateRequest::try_new(input1, input2) {
            Ok(request) => request,
            Err(e) => {
                return Err(e);
            },
        };
        let (key1, value1) = request.first();
        let (key2, value2) = request.second();
        match self.backend.update(key1, value1, key2, value2) {
            Ok(()) => {
                self.update_request = Some(request);
                self.outputs.clear();
                Ok(())
            },
            Err(e) => Err(FluidError::Backend(e)),
        }
    }

    /// Retrieve a state-dependent property, in nano SI units.  Only
    /// expressible on a defined-state handle.  On a cache hit the
    /// cached value is returned bit-identically and the backend is
    /// not consulted; on a miss the backend is queried once and a
    /// successful result is cached.  A backend failure is surfaced
    /// as-is and nothing is cached.
    pub fn output(&mut self, param: FluidParam) -> (r: Result<i64, FluidError>)
        ensures
            final(self).substance_spec() == old(self).substance_spec(),
            final(self).request_spec() == old(self).request_spec(),
            final(self).trivial_outputs_spec() == old(self).trivial_outputs_spec(),
            old(self).outputs_spec().contains_key(param.code_spec()) ==> {
                &&& r == Ok::<i64, FluidError>(old(self).outputs_spec()[param.code_spec()])
                &&& final(self).outputs_spec() == old(self).outputs_spec()
                &&& final(self).backend_spec() == old(self).backend_spec()
            },
            match r {
                Ok(v) => {
                    &&& final(self).outputs_spec().contains_key(param.code_spec())
                    &&& final(self).outputs_spec()[param.code_spec()] == v
                    &&& final(self).outputs_spec() == old(self).outputs_spec().insert(
                        param.code_spec(),
                        v,
                    )
                },
                Err(e) => {
                    &&& e matches FluidError::Backend(_)
                    &&& !old(self).outputs_spec().contains_key(param.code_spec())
                    &&& final(self).outputs_spec() == old(self).outputs_spec()
                },
            },
    {
        let code = param.code();
        match self.outputs.get(code) {
            Some(v) => {
                proof {
                    assert(old(self).outputs_spec().insert(code, v) =~= old(
                        self,
                    ).outputs_spec());
                }
                Ok(v)
            },
            None => {
                match self.backend.keyed_output(code) {
                    Ok(v) => {
                        self.outputs.insert(code, v);
                        Ok(v)
                    },
                    Err(e) => Err(FluidError::Backend(e)),
                }
            },
        }
    }
}

} // verus!
