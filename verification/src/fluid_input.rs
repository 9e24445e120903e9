//! Keyed inputs: immutable pairs of a fluid parameter code and a
//! fixed-point SI magnitude, constructed through one factory per
//! physical quantity.  No constructor validates the magnitude;
//! physical plausibility is left to the backend.
//!
//! Magnitudes are fixed-point integers in nano SI units: one pascal
//! is `1_000_000_000`, one kelvin is `1_000_000_000`, and so on for
//! the SI unit of each quantity.

use vstd::prelude::*;

use crate::fluid_param::FluidParam;

verus! {

/// A keyed input: one parameter together with its magnitude in nano
/// SI units.
pub trait KeyedInput<K> {
    /// The specified key.
    spec fn key_spec(&self) -> K;

    /// The specified magnitude in nano SI units.
    spec fn si_value_spec(&self) -> i64;

    /// The specified key.
    fn key(&self) -> (r: K)
        ensures
            r == self.key_spec(),
    ;

    /// The specified magnitude in nano SI units.
    fn si_value(&self) -> (r: i64)
        ensures
            r == self.si_value_spec(),
    ;
}

/// Fluid keyed input: one independent state variable of a fluid.
#[derive(Debug, Copy, Clone, PartialEq, Eq, Structural)]
pub struct FluidInput {
    key: FluidParam,
    si_value: i64,
}

impl FluidInput {
    /// Mass density (key: [`FluidParam::DMass`], nano kg/m3).
    pub fn density(value: i64) -> (r: Self)
        ensures
            r.key_spec() == FluidParam::DMass,
            r.si_value_spec() == value,
    {
        FluidInput { key: FluidParam::DMass, si_value: value }
    }

    /// Mass specific enthalpy (key: [`FluidParam::HMass`], nano J/kg).
    pub fn enthalpy(value: i64) -> (r: Self)
        ensures
            r.key_spec() == FluidParam::HMass,
            r.si_value_spec() == value,
    {
        FluidInput { key: FluidParam::HMass, si_value: value }
    }

    /// Mass specific entropy (key: [`FluidParam::SMass`], nano J/kg/K).
    pub fn entropy(value: i64) -> (r: Self)
        ensures
            r.key_spec() == FluidParam::SMass,
            r.si_value_spec() == value,
    {
        FluidInput { key: FluidParam::SMass, si_value: value }
    }

    /// Mass specific internal energy (key: [`FluidParam::UMass`], nano J/kg).
    pub fn internal_energy(value: i64) -> (r: Self)
        ensures
            r.key_spec() == FluidParam::UMass,
            r.si_value_spec() == value,
    {
        FluidInput { key: FluidParam::UMass, si_value: value }
    }

    /// Molar density (key: [`FluidParam::DMolar`], nano mol/m3).
    pub fn molar_density(value: i64) -> (r: Self)
        ensures
            r.key_spec() == FluidParam::DMolar,
            r.si_value_spec() == value,
    {
        FluidInput { key: FluidParam::DMolar, si_value: value }
    }

    /// Molar specific enthalpy (key: [`FluidParam::HMolar`], nano J/mol).
    pub fn molar_enthalpy(value: i64) -> (r: Self)
        ensures
            r.key_spec() == FluidParam::HMolar,
            r.si_value_spec() == value,
    {
        FluidInput { key: FluidParam::HMolar, si_value: value }
    }

    /// Molar specific entropy (key: [`FluidParam::SMolar`], nano J/mol/K).
    pub fn molar_entropy(value: i64) -> (r: Self)
        ensures
            r.key_spec() == FluidParam::SMolar,
            r.si_value_spec() == value,
    {
        FluidInput { key: FluidParam::SMolar, si_value: value }
    }

    /// Molar specific internal energy (key: [`FluidParam::UMolar`], nano J/mol).
    pub fn molar_internal_energy(value: i64) -> (r: Self)
        ensures
            r.key_spec() == FluidParam::UMolar,
            r.si_value_spec() == value,
    {
        FluidInput { key: FluidParam::UMolar, si_value: value }
    }

    /// Pressure (key: [`FluidParam::P`], nano Pa).
    pub fn pressure(value: i64) -> (r: Self)
        ensures
            r.key_spec() == FluidParam::P,
            r.si_value_spec() == value,
    {
        FluidInput { key: FluidParam::P, si_value: value }
    }

    /// Vapor quality (key: [`FluidParam::Q`], nano units, zero to one).
    pub fn quality(value: i64) -> (r: Self)
        ensures
            r.key_spec() == FluidParam::Q,
            r.si_value_spec() == value,
    {
        FluidInput { key: FluidParam::Q, si_value: value }
    }

    /// Temperature (key: [`FluidParam::T`], nano K).
    pub fn temperature(value: i64) -> (r: Self)
        ensures
            r.key_spec() == FluidParam::T,
            r.si_value_spec() == value,
    {
        FluidInput { key: FluidParam::T, si_value: value }
    }
}

impl KeyedInput<FluidParam> for FluidInput {
    closed spec fn key_spec(&self) -> FluidParam {
        self.key
    }

    closed spec fn si_value_spec(&self) -> i64 {
        self.si_value
    }

    fn key(&self) -> (r: FluidParam)
        ensures
            r == self.key_spec(),
    {
        self.key
    }

    fn si_value(&self) -> (r: i64)
        ensures
            r == self.si_value_spec(),
    {
        self.si_value
    }
}

} // verus!
