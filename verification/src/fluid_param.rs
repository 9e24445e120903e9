//! Fluid parameter key registries: the state-dependent parameters a
//! fluid handle can query, and the trivial (state-independent)
//! parameters with their own code space.  The two registries are
//! independent of each other and of the phase registry; a code valid
//! in one of them means nothing in another.  The trivial codes are
//! also numerically disjoint from the state-dependent ones, so a
//! backend answering one query channel can tell the two apart.

use vstd::prelude::*;

use crate::error::ParseError;
use crate::registry::{chars_eq_ci, nano_trunc, str_matches_ci};

verus! {

/// Parameters of a fluid state that depend on the
/// thermodynamic state and are queried against an established
/// update.
#[derive(Debug, Copy, Clone, Eq, PartialEq, Structural)]
pub enum FluidParam {
    /// Mass density (SI units: kg/m3).
    DMass,
    /// Molar density (SI units: mol/m3).
    DMolar,
    /// Mass specific enthalpy (SI units: J/kg).
    HMass,
    /// Molar specific enthalpy (SI units: J/mol).
    HMolar,
    /// Pressure (SI units: Pa).
    P,
    /// Vapor quality (dimensionless, from 0 to 1).
    Q,
    /// Mass specific entropy (SI units: J/kg/K).
    SMass,
    /// Molar specific entropy (SI units: J/mol/K).
    SMolar,
    /// Temperature (SI units: K).
    T,
    /// Mass specific internal energy (SI units: J/kg).
    UMass,
    /// Molar specific internal energy (SI units: J/mol).
    UMolar,
}

impl FluidParam {
    /// Stable numeric code of the parameter.
    pub open spec fn code_spec(self) -> u8 {
        match self {
            FluidParam::DMass => 0,
            FluidParam::DMolar => 1,
            FluidParam::HMass => 2,
            FluidParam::HMolar => 3,
            FluidParam::P => 4,
            FluidParam::Q => 5,
            FluidParam::SMass => 6,
            FluidParam::SMolar => 7,
            FluidParam::T => 8,
            FluidParam::UMass => 9,
            FluidParam::UMolar => 10,
        }
    }

    /// Stable numeric code of the parameter.
    pub fn code(&self) -> (r: u8)
        ensures
            r == self.code_spec(),
    {
        match self {
            FluidParam::DMass => 0,
            FluidParam::DMolar => 1,
            FluidParam::HMass => 2,
            FluidParam::HMolar => 3,
            FluidParam::P => 4,
            FluidParam::Q => 5,
            FluidParam::SMass => 6,
            FluidParam::SMolar => 7,
            FluidParam::T => 8,
            FluidParam::UMass => 9,
            FluidParam::UMolar => 10,
        }
    }

    /// The parameter registered under a numeric code, if any.
    pub open spec fn try_from_code_spec(value: u8) -> Result<FluidParam, ParseError> {
        if value == 0 {
            Ok(FluidParam::DMass)
        } else if value == 1 {
            Ok(FluidParam::DMolar)
        } else if value == 2 {
            Ok(FluidParam::HMass)
        } else if value == 3 {
            Ok(FluidParam::HMolar)
        } else if value == 4 {
            Ok(FluidParam::P)
        } else if value == 5 {
            Ok(FluidParam::Q)
        } else if value == 6 {
            Ok(FluidParam::SMass)
        } else if value == 7 {
            Ok(FluidParam::SMolar)
        } else if value == 8 {
            Ok(FluidParam::T)
        } else if value == 9 {
            Ok(FluidParam::UMass)
        } else if value == 10 {
            Ok(FluidParam::UMolar)
        } else {
            Err(ParseError::VariantNotFound)
        }
    }

    /// Look a parameter up by its numeric code.  Succeeds exactly on
    /// the registered codes.
    pub fn try_from(value: u8) -> (r: Result<FluidParam, ParseError>)
        ensures
            r == FluidParam::try_from_code_spec(value),
    {
        if value == 0 {
            Ok(FluidParam::DMass)
        } else if value == 1 {
            Ok(FluidParam::DMolar)
        } else if value == 2 {
            Ok(FluidParam::HMass)
        } else if value == 3 {
            Ok(FluidParam::HMolar)
        } else if value == 4 {
            Ok(FluidParam::P)
        } else if value == 5 {
            Ok(FluidParam::Q)
        } else if value == 6 {
            Ok(FluidParam::SMass)
        } else if value == 7 {
            Ok(FluidParam::SMolar)
        } else if value == 8 {
            Ok(FluidParam::T)
        } else if value == 9 {
            Ok(FluidParam::UMass)
        } else if value == 10 {
            Ok(FluidParam::UMolar)
        } else {
            Err(ParseError::VariantNotFound)
        }
    }

    /// The parameter registered under a fixed-point nano code: the
    /// code is truncated toward zero, any fractional part silently
    /// discarded, and the integer part then validated.
    pub open spec fn try_from_nano_spec(value: i64) -> Result<FluidParam, ParseError> {
        if nano_trunc(value) < 0 || nano_trunc(value) > 255 {
            Err(ParseError::VariantNotFound)
        } else {
            FluidParam::try_from_code_spec(nano_trunc(value) as u8)
        }
    }

    /// Look a parameter up by a fixed-point nano code, as decoded
    /// from a fractional backend return: truncate toward zero first,
    /// then validate the integer part.
    pub fn try_from_nano(value: i64) -> (r: Result<FluidParam, ParseError>)
        ensures
            r == FluidParam::try_from_nano_spec(value),
    {
        if value <= -1_000_000_000 {
            Err(ParseError::VariantNotFound)
        } else if value < 0 {
            FluidParam::try_from(0)
        } else {
            let q = value / 1_000_000_000;
            if q > 255 {
                Err(ParseError::VariantNotFound)
            } else {
                FluidParam::try_from(q as u8)
            }
        }
    }

    /// Canonical symbolic name, as a mathematical character sequence.
    pub open spec fn name_spec(self) -> Seq<char> {
        match self {
            FluidParam::DMass => "Dmass"@,
            FluidParam::DMolar => "Dmolar"@,
            FluidParam::HMass => "Hmass"@,
            FluidParam::HMolar => "Hmolar"@,
            FluidParam::P => "P"@,
            FluidParam::Q => "Q"@,
            FluidParam::SMass => "Smass"@,
            FluidParam::SMolar => "Smolar"@,
            FluidParam::T => "T"@,
            FluidParam::UMass => "Umass"@,
            FluidParam::UMolar => "Umolar"@,
        }
    }

    /// Canonical symbolic name.
    pub fn as_ref(&self) -> (r: &'static str)
        ensures
            r@ == self.name_spec(),
    {
        match self {
            FluidParam::DMass => "Dmass",
            FluidParam::DMolar => "Dmolar",
            FluidParam::HMass => "Hmass",
            FluidParam::HMolar => "Hmolar",
            FluidParam::P => "P",
            FluidParam::Q => "Q",
            FluidParam::SMass => "Smass",
            FluidParam::SMolar => "Smolar",
            FluidParam::T => "T",
            FluidParam::UMass => "Umass",
            FluidParam::UMolar => "Umolar",
        }
    }

    /// The parameter registered under a symbolic name, compared
    /// without regard to ASCII case.
    pub open spec fn from_str_spec(cs: Seq<char>) -> Result<FluidParam, ParseError> {
        if chars_eq_ci(cs, "Dmass"@) {
            Ok(FluidParam::DMass)
        } else if chars_eq_ci(cs, "Dmolar"@) {
            Ok(FluidParam::DMolar)
        } else if chars_eq_ci(cs, "Hmass"@) {
            Ok(FluidParam::HMass)
        } else if chars_eq_ci(cs, "Hmolar"@) {
            Ok(FluidParam::HMolar)
        } else if chars_eq_ci(cs, "P"@) {
            Ok(FluidParam::P)
        } else if chars_eq_ci(cs, "Q"@) {
            Ok(FluidParam::Q)
        } else if chars_eq_ci(cs, "Smass"@) {
            Ok(FluidParam::SMass)
        } else if chars_eq_ci(cs, "Smolar"@) {
            Ok(FluidParam::SMolar)
        } else if chars_eq_ci(cs, "T"@) {
            Ok(FluidParam::T)
        } else if chars_eq_ci(cs, "Umass"@) {
            Ok(FluidParam::UMass)
        } else if chars_eq_ci(cs, "Umolar"@) {
            Ok(FluidParam::UMolar)
        } else {
            Err(ParseError::VariantNotFound)
        }
    }

    /// Look a parameter up by its symbolic name, case-insensitively.
    pub fn from_str(s: &str) -> (r: Result<FluidParam, ParseError>)
        ensures
            r == FluidParam::from_str_spec(s@),
    {
        if str_matches_ci(s, "Dmass") {
            Ok(FluidParam::DMass)
        } else if str_matches_ci(s, "Dmolar") {
            Ok(FluidParam::DMolar)
        } else if str_matches_ci(s, "Hmass") {
            Ok(FluidParam::HMass)
        } else if str_matches_ci(s, "Hmolar") {
            Ok(FluidParam::HMolar)
        } else if str_matches_ci(s, "P") {
            Ok(FluidParam::P)
        } else if str_matches_ci(s, "Q") {
            Ok(FluidParam::Q)
        } else if str_matches_ci(s, "Smass") {
            Ok(FluidParam::SMass)
        } else if str_matches_ci(s, "Smolar") {
            Ok(FluidParam::SMolar)
        } else if str_matches_ci(s, "T") {
            Ok(FluidParam::T)
        } else if str_matches_ci(s, "Umass") {
            Ok(FluidParam::UMass)
        } else if str_matches_ci(s, "Umolar") {
            Ok(FluidParam::UMolar)
        } else {
            Err(ParseError::VariantNotFound)
        }
    }

    /// All registered parameters, each exactly once.
    pub fn all() -> (r: Vec<FluidParam>)
        ensures
            r@ == seq![
                FluidParam::DMass,
                FluidParam::DMolar,
                FluidParam::HMass,
                FluidParam::HMolar,
                FluidParam::P,
                FluidParam::Q,
                FluidParam::SMass,
                FluidParam::SMolar,
                FluidParam::T,
                FluidParam::UMass,
                FluidParam::UMolar
            ],
    {
        let mut v: Vec<FluidParam> = Vec::new();
        v.push(FluidParam::DMass);
        v.push(FluidParam::DMolar);
        v.push(FluidParam::HMass);
        v.push(FluidParam::HMolar);
        v.push(FluidParam::P);
        v.push(FluidParam::Q);
        v.push(FluidParam::SMass);
        v.push(FluidParam::SMolar);
        v.push(FluidParam::T);
        v.push(FluidParam::UMass);
        v.push(FluidParam::UMolar);
        proof {
            assert(v@ =~= seq![
                FluidParam::DMass,
                FluidParam::DMolar,
                FluidParam::HMass,
                FluidParam::HMolar,
                FluidParam::P,
                FluidParam::Q,
                FluidParam::SMass,
                FluidParam::SMolar,
                FluidParam::T,
                FluidParam::UMass,
                FluidParam::UMolar
            ]);
        }
        v
    }
}

/// Looking a parameter's own code up yields the parameter back, and
/// a successful code lookup yields a parameter carrying that very
/// code.
pub proof fn lemma_fluid_param_code_round_trip(p: FluidParam, value: u8)
    ensures
        FluidParam::try_from_code_spec(p.code_spec()) == Ok::<FluidParam, ParseError>(p),
        FluidParam::try_from_code_spec(value) matches Ok(q) ==> q.code_spec() == value,
        FluidParam::try_from_code_spec(value) is Ok <==> value < 11,
{
}

/// Looking a parameter's canonical name up yields the parameter
/// back.
pub proof fn lemma_fluid_param_name_round_trip(p: FluidParam)
    ensures
        FluidParam::from_str_spec(p.name_spec()) == Ok::<FluidParam, ParseError>(p),
{
    reveal_strlit("Dmass");
    reveal_strlit("Dmolar");
    reveal_strlit("Hmass");
    reveal_strlit("Hmolar");
    reveal_strlit("P");
    reveal_strlit("Q");
    reveal_strlit("Smass");
    reveal_strlit("Smolar");
    reveal_strlit("T");
    reveal_strlit("Umass");
    reveal_strlit("Umolar");
    crate::registry::lemma_chars_eq_ci_reflexive(p.name_spec());
    match p {
        FluidParam::HMass => {
            assert(!crate::registry::char_eq_ci("Hmass"@[0], "Dmass"@[0]));
        },
        FluidParam::HMolar => {
            assert(!crate::registry::char_eq_ci("Hmolar"@[0], "Dmolar"@[0]));
        },
        FluidParam::Q => {
            assert(!crate::registry::char_eq_ci("Q"@[0], "P"@[0]));
        },
        FluidParam::SMass => {
            assert(!crate::registry::char_eq_ci("Smass"@[0], "Dmass"@[0]));
            assert(!crate::registry::char_eq_ci("Smass"@[0], "Hmass"@[0]));
        },
        FluidParam::SMolar => {
            assert(!crate::registry::char_eq_ci("Smolar"@[0], "Dmolar"@[0]));
            assert(!crate::registry::char_eq_ci("Smolar"@[0], "Hmolar"@[0]));
        },
        FluidParam::T => {
            assert(!crate::registry::char_eq_ci("T"@[0], "P"@[0]));
            assert(!crate::registry::char_eq_ci("T"@[0], "Q"@[0]));
        },
        FluidParam::UMass => {
            assert(!crate::registry::char_eq_ci("Umass"@[0], "Dmass"@[0]));
            assert(!crate::registry::char_eq_ci("Umass"@[0], "Hmass"@[0]));
            assert(!crate::registry::char_eq_ci("Umass"@[0], "Smass"@[0]));
        },
        FluidParam::UMolar => {
            assert(!crate::registry::char_eq_ci("Umolar"@[0], "Dmolar"@[0]));
            assert(!crate::registry::char_eq_ci("Umolar"@[0], "Hmolar"@[0]));
            assert(!crate::registry::char_eq_ci("Umolar"@[0], "Smolar"@[0]));
        },
        _ => {},
    }
}

/// Trivial fluid parameters: properties independent of the
/// thermodynamic state, available before any update and cached
/// forever once computed.
#[derive(Debug, Copy, Clone, Eq, PartialEq, Structural)]
pub enum FluidTrivialParam {
    /// Molar mass (SI units: kg/mol).
    MolarMass,
    /// Critical temperature (SI units: K).
    TCritical,
    /// Critical pressure (SI units: Pa).
    PCritical,
    /// Minimum temperature of validity (SI units: K).
    TMin,
    /// Maximum temperature of validity (SI units: K).
    TMax,
    /// Minimum pressure of validity (SI units: Pa).
    PMin,
    /// Maximum pressure of validity (SI units: Pa).
    PMax,
}

impl FluidTrivialParam {
    /// Stable numeric code of the parameter.
    pub open spec fn code_spec(self) -> u8 {
        match self {
            FluidTrivialParam::MolarMass => 100,
            FluidTrivialParam::TCritical => 101,
            FluidTrivialParam::PCritical => 102,
            FluidTrivialParam::TMin => 103,
            FluidTrivialParam::TMax => 104,
            FluidTrivialParam::PMin => 105,
            FluidTrivialParam::PMax => 106,
        }
    }

    /// Stable numeric code of the parameter.
    pub fn code(&self) -> (r: u8)
        ensures
            r == self.code_spec(),
    {
        match self {
            FluidTrivialParam::MolarMass => 100,
            FluidTrivialParam::TCritical => 101,
            FluidTrivialParam::PCritical => 102,
            FluidTrivialParam::TMin => 103,
            FluidTrivialParam::TMax => 104,
            FluidTrivialParam::PMin => 105,
            FluidTrivialParam::PMax => 106,
        }
    }

    /// The parameter registered under a numeric code, if any.
    pub open spec fn try_from_code_spec(value: u8) -> Result<FluidTrivialParam, ParseError> {
        if value == 100 {
            Ok(FluidTrivialParam::MolarMass)
        } else if value == 101 {
            Ok(FluidTrivialParam::TCritical)
        } else if value == 102 {
            Ok(FluidTrivialParam::PCritical)
        } else if value == 103 {
            Ok(FluidTrivialParam::TMin)
        } else if value == 104 {
            Ok(FluidTrivialParam::TMax)
        } else if value == 105 {
            Ok(FluidTrivialParam::PMin)
        } else if value == 106 {
            Ok(FluidTrivialParam::PMax)
        } else {
            Err(ParseError::VariantNotFound)
        }
    }

    /// Look a parameter up by its numeric code.  Succeeds exactly on
    /// the registered codes.
    pub fn try_from(value: u8) -> (r: Result<FluidTrivialParam, ParseError>)
        ensures
            r == FluidTrivialParam::try_from_code_spec(value),
    {
        if value == 100 {
            Ok(FluidTrivialParam::MolarMass)
        } else if value == 101 {
            Ok(FluidTrivialParam::TCritical)
        } else if value == 102 {
            Ok(FluidTrivialParam::PCritical)
        } else if value == 103 {
            Ok(FluidTrivialParam::TMin)
        } else if value == 104 {
            Ok(FluidTrivialParam::TMax)
        } else if value == 105 {
            Ok(FluidTrivialParam::PMin)
        } else if value == 106 {
            Ok(FluidTrivialParam::PMax)
        } else {
            Err(ParseError::VariantNotFound)
        }
    }

    /// The parameter registered under a fixed-point nano code: the
    /// code is truncated toward zero, any fractional part silently
    /// discarded, and the integer part then validated.
    pub open spec fn try_from_nano_spec(value: i64) -> Result<FluidTrivialParam, ParseError> {
        if nano_trunc(value) < 0 || nano_trunc(value) > 255 {
            Err(ParseError::VariantNotFound)
        } else {
            FluidTrivialParam::try_from_code_spec(nano_trunc(value) as u8)
        }
    }

    /// Look a parameter up by a fixed-point nano code, as decoded
    /// from a fractional backend return: truncate toward zero first,
    /// then validate the integer part.
    pub fn try_from_nano(value: i64) -> (r: Result<FluidTrivialParam, ParseError>)
        ensures
            r == FluidTrivialParam::try_from_nano_spec(value),
    {
        if value <= -1_000_000_000 {
            Err(ParseError::VariantNotFound)
        } else if value < 0 {
            FluidTrivialParam::try_from(0)
        } else {
            let q = value / 1_000_000_000;
            if q > 255 {
                Err(ParseError::VariantNotFound)
            } else {
                FluidTrivialParam::try_from(q as u8)
            }
        }
    }

    /// Canonical symbolic name, as a mathematical character sequence.
    pub open spec fn name_spec(self) -> Seq<char> {
        match self {
            FluidTrivialParam::MolarMass => "M"@,
            FluidTrivialParam::TCritical => "Tcrit"@,
            FluidTrivialParam::PCritical => "Pcrit"@,
            FluidTrivialParam::TMin => "Tmin"@,
            FluidTrivialParam::TMax => "Tmax"@,
            FluidTrivialParam::PMin => "Pmin"@,
            FluidTrivialParam::PMax => "Pmax"@,
        }
    }

    /// Canonical symbolic name.
    pub fn as_ref(&self) -> (r: &'static str)
        ensures
            r@ == self.name_spec(),
    {
        match self {
            FluidTrivialParam::MolarMass => "M",
            FluidTrivialParam::TCritical => "Tcrit",
            FluidTrivialParam::PCritical => "Pcrit",
            FluidTrivialParam::TMin => "Tmin",
            FluidTrivialParam::TMax => "Tmax",
            FluidTrivialParam::PMin => "Pmin",
            FluidTrivialParam::PMax => "Pmax",
        }
    }

    /// The parameter registered under a symbolic name, compared
    /// without regard to ASCII case.
    pub open spec fn from_str_spec(cs: Seq<char>) -> Result<FluidTrivialParam, ParseError> {
        if chars_eq_ci(cs, "M"@) {
            Ok(FluidTrivialParam::MolarMass)
        } else if chars_eq_ci(cs, "Tcrit"@) {
            Ok(FluidTrivialParam::TCritical)
        } else if chars_eq_ci(cs, "Pcrit"@) {
            Ok(FluidTrivialParam::PCritical)
        } else if chars_eq_ci(cs, "Tmin"@) {
            Ok(FluidTrivialParam::TMin)
        } else if chars_eq_ci(cs, "Tmax"@) {
            Ok(FluidTrivialParam::TMax)
        } else if chars_eq_ci(cs, "Pmin"@) {
            Ok(FluidTrivialParam::PMin)
        } else if chars_eq_ci(cs, "Pmax"@) {
            Ok(FluidTrivialParam::PMax)
        } else {
            Err(ParseError::VariantNotFound)
        }
    }

    /// Look a parameter up by its symbolic name, case-insensitively.
    pub fn from_str(s: &str) -> (r: Result<FluidTrivialParam, ParseError>)
        ensures
            r == FluidTrivialParam::from_str_spec(s@),
    {
        if str_matches_ci(s, "M") {
            Ok(FluidTrivialParam::MolarMass)
        } else if str_matches_ci(s, "Tcrit") {
            Ok(FluidTrivialParam::TCritical)
        } else if str_matches_ci(s, "Pcrit") {
            Ok(FluidTrivialParam::PCritical)
        } else if str_matches_ci(s, "Tmin") {
            Ok(FluidTrivialParam::TMin)
        } else if str_matches_ci(s, "Tmax") {
            Ok(FluidTrivialParam::TMax)
        } else if str_matches_ci(s, "Pmin") {
            Ok(FluidTrivialParam::PMin)
        } else if str_matches_ci(s, "Pmax") {
            Ok(FluidTrivialParam::PMax)
        } else {
            Err(ParseError::VariantNotFound)
        }
    }

    /// All registered parameters, each exactly once.
    pub fn all() -> (r: Vec<FluidTrivialParam>)
        ensures
            r@ == seq![
                FluidTrivialParam::MolarMass,
                FluidTrivialParam::TCritical,
                FluidTrivialParam::PCritical,
                FluidTrivialParam::TMin,
                FluidTrivialParam::TMax,
                FluidTrivialParam::PMin,
                FluidTrivialParam::PMax
            ],
    {
        let mut v: Vec<FluidTrivialParam> = Vec::new();
        v.push(FluidTrivialParam::MolarMass);
        v.push(FluidTrivialParam::TCritical);
        v.push(FluidTrivialParam::PCritical);
        v.push(FluidTrivialParam::TMin);
        v.push(FluidTrivialParam::TMax);
        v.push(FluidTrivialParam::PMin);
        v.push(FluidTrivialParam::PMax);
        proof {
            assert(v@ =~= seq![
                FluidTrivialParam::MolarMass,
                FluidTrivialParam::TCritical,
                FluidTrivialParam::PCritical,
                FluidTrivialParam::TMin,
                FluidTrivialParam::TMax,
                FluidTrivialParam::PMin,
                FluidTrivialParam::PMax
            ]);
        }
        v
    }
}

/// Looking a parameter's own code up yields the parameter back, and
/// a successful code lookup yields a parameter carrying that very
/// code.
pub proof fn lemma_fluid_trivial_param_code_round_trip(p: FluidTrivialParam, value: u8)
    ensures
        FluidTrivialParam::try_from_code_spec(p.code_spec()) == Ok::<FluidTrivialParam, ParseError>(p),
        FluidTrivialParam::try_from_code_spec(value) matches Ok(q) ==> q.code_spec() == value,
        FluidTrivialParam::try_from_code_spec(value) is Ok <==> 100 <= value < 107,
{
}

/// Looking a parameter's canonical name up yields the parameter
/// back.
pub proof fn lemma_fluid_trivial_param_name_round_trip(p: FluidTrivialParam)
    ensures
        FluidTrivialParam::from_str_spec(p.name_spec()) == Ok::<FluidTrivialParam, ParseError>(p),
{
    reveal_strlit("M");
    reveal_strlit("Tcrit");
    reveal_strlit("Pcrit");
    reveal_strlit("Tmin");
    reveal_strlit("Tmax");
    reveal_strlit("Pmin");
    reveal_strlit("Pmax");
    crate::registry::lemma_chars_eq_ci_reflexive(p.name_spec());
    match p {
        FluidTrivialParam::PCritical => {
            assert(!crate::registry::char_eq_ci("Pcrit"@[0], "Tcrit"@[0]));
        },
        FluidTrivialParam::TMax => {
            assert(!crate::registry::char_eq_ci("Tmax"@[2], "Tmin"@[2]));
        },
        FluidTrivialParam::PMin => {
            assert(!crate::registry::char_eq_ci("Pmin"@[0], "Tmin"@[0]));
            assert(!crate::registry::char_eq_ci("Pmin"@[0], "Tmax"@[0]));
        },
        FluidTrivialParam::PMax => {
            assert(!crate::registry::char_eq_ci("Pmax"@[0], "Tmin"@[0]));
            assert(!crate::registry::char_eq_ci("Pmax"@[0], "Tmax"@[0]));
            assert(!crate::registry::char_eq_ci("Pmax"@[2], "Pmin"@[2]));
        },
        _ => {},
    }
}

} // verus!
