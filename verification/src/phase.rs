//! Phase states of fluids and mixtures: one of the three parameter
//! key registries.  Every phase has a stable numeric code and a
//! canonical symbolic name with textual aliases; lookups by name are
//! case-insensitive, and lookups by a fixed-point code truncate it
//! toward zero before validating it.

use vstd::prelude::*;

use crate::error::ParseError;
use crate::registry::{chars_eq_ci, nano_trunc, str_matches_ci};

verus! {

/// Phase states of fluids and mixtures.
#[derive(Debug, Copy, Clone, Eq, PartialEq, Structural)]
pub enum Phase {
    /// Liquid, below the critical point and above saturation.
    Liquid,
    /// Supercritical fluid, above critical pressure and temperature.
    Supercritical,
    /// Supercritical gas, below critical pressure only.
    SupercriticalGas,
    /// Supercritical liquid, above critical pressure only.
    SupercriticalLiquid,
    /// The critical point itself.
    CriticalPoint,
    /// Gas, below the critical point and below saturation.
    Gas,
    /// Mixed liquid and gas.
    TwoPhase,
    /// Unknown phase.
    Unknown,
    /// Phase left for the backend to determine.
    NotImposed,
}

impl Phase {
    /// Stable numeric code of the phase.
    pub open spec fn code_spec(self) -> u8 {
        match self {
            Phase::Liquid => 0,
            Phase::Supercritical => 1,
            Phase::SupercriticalGas => 2,
            Phase::SupercriticalLiquid => 3,
            Phase::CriticalPoint => 4,
            Phase::Gas => 5,
            Phase::TwoPhase => 6,
            Phase::Unknown => 7,
            Phase::NotImposed => 8,
        }
    }

    /// Stable numeric code of the phase.
    pub fn code(&self) -> (r: u8)
        ensures
            r == self.code_spec(),
    {
        match self {
            Phase::Liquid => 0,
            Phase::Supercritical => 1,
            Phase::SupercriticalGas => 2,
            Phase::SupercriticalLiquid => 3,
            Phase::CriticalPoint => 4,
            Phase::Gas => 5,
            Phase::TwoPhase => 6,
            Phase::Unknown => 7,
            Phase::NotImposed => 8,
        }
    }

    /// The phase registered under a numeric code, if any.
    pub open spec fn try_from_code_spec(value: u8) -> Result<Phase, ParseError> {
        if value == 0 {
            Ok(Phase::Liquid)
        } else if value == 1 {
            Ok(Phase::Supercritical)
        } else if value == 2 {
            Ok(Phase::SupercriticalGas)
        } else if value == 3 {
            Ok(Phase::SupercriticalLiquid)
        } else if value == 4 {
            Ok(Phase::CriticalPoint)
        } else if value == 5 {
            Ok(Phase::Gas)
        } else if value == 6 {
            Ok(Phase::TwoPhase)
        } else if value == 7 {
            Ok(Phase::Unknown)
        } else if value == 8 {
            Ok(Phase::NotImposed)
        } else {
            Err(ParseError::VariantNotFound)
        }
    }

    /// Look a phase up by its numeric code.  Succeeds exactly on the
    /// nine registered codes.
    pub fn try_from(value: u8) -> (r: Result<Phase, ParseError>)
        ensures
            r == Phase::try_from_code_spec(value),
    {
        if value == 0 {
            Ok(Phase::Liquid)
        } else if value == 1 {
            Ok(Phase::Supercritical)
        } else if value == 2 {
            Ok(Phase::SupercriticalGas)
        } else if value == 3 {
            Ok(Phase::SupercriticalLiquid)
        } else if value == 4 {
            Ok(Phase::CriticalPoint)
        } else if value == 5 {
            Ok(Phase::Gas)
        } else if value == 6 {
            Ok(Phase::TwoPhase)
        } else if value == 7 {
            Ok(Phase::Unknown)
        } else if value == 8 {
            Ok(Phase::NotImposed)
        } else {
            Err(ParseError::VariantNotFound)
        }
    }

    /// The phase registered under a fixed-point nano code: the code
    /// is truncated toward zero, any fractional part silently
    /// discarded, and the integer part then validated.
    pub open spec fn try_from_nano_spec(value: i64) -> Result<Phase, ParseError> {
        if nano_trunc(value) < 0 || nano_trunc(value) > 255 {
            Err(ParseError::VariantNotFound)
        } else {
            Phase::try_from_code_spec(nano_trunc(value) as u8)
        }
    }

    /// Look a phase up by a fixed-point nano code, as decoded from a
    /// fractional backend return: truncate toward zero first, then
    /// validate the integer part.
    pub fn try_from_nano(value: i64) -> (r: Result<Phase, ParseError>)
        ensures
            r == Phase::try_from_nano_spec(value),
    {
        if value <= -1_000_000_000 {
            Err(ParseError::VariantNotFound)
        } else if value < 0 {
            Phase::try_from(0)
        } else {
            let q = value / 1_000_000_000;
            if q > 255 {
                Err(ParseError::VariantNotFound)
            } else {
                Phase::try_from(q as u8)
            }
        }
    }

    /// Canonical symbolic name, as a mathematical character sequence.
    pub open spec fn name_spec(self) -> Seq<char> {
        match self {
            Phase::Liquid => "phase_liquid"@,
            Phase::Supercritical => "phase_supercritical"@,
            Phase::SupercriticalGas => "phase_supercritical_gas"@,
            Phase::SupercriticalLiquid => "phase_supercritical_liquid"@,
            Phase::CriticalPoint => "phase_critical_point"@,
            Phase::Gas => "phase_gas"@,
            Phase::TwoPhase => "phase_twophase"@,
            Phase::Unknown => "phase_unknown"@,
            Phase::NotImposed => "phase_not_imposed"@,
        }
    }

    /// Canonical symbolic name.
    pub fn as_ref(&self) -> (r: &'static str)
        ensures
            r@ == self.name_spec(),
    {
        match self {
            Phase::Liquid => "phase_liquid",
            Phase::Supercritical => "phase_supercritical",
            Phase::SupercriticalGas => "phase_supercritical_gas",
            Phase::SupercriticalLiquid => "phase_supercritical_liquid",
            Phase::CriticalPoint => "phase_critical_point",
            Phase::Gas => "phase_gas",
            Phase::TwoPhase => "phase_twophase",
            Phase::Unknown => "phase_unknown",
            Phase::NotImposed => "phase_not_imposed",
        }
    }

    /// The phase registered under a symbolic name, compared without
    /// regard to ASCII case: its canonical name or any of its
    /// textual aliases.
    pub open spec fn from_str_spec(cs: Seq<char>) -> Result<Phase, ParseError> {
        if chars_eq_ci(cs, "phase_liquid"@) || chars_eq_ci(cs, "liquid"@) {
            Ok(Phase::Liquid)
        } else if chars_eq_ci(cs, "phase_supercritical"@) || chars_eq_ci(cs, "supercritical"@) {
            Ok(Phase::Supercritical)
        } else if chars_eq_ci(cs, "phase_supercritical_gas"@) || chars_eq_ci(
            cs,
            "supercritical_gas"@,
        ) || chars_eq_ci(cs, "SupercriticalGas"@) {
            Ok(Phase::SupercriticalGas)
        } else if chars_eq_ci(cs, "phase_supercritical_liquid"@) || chars_eq_ci(
            cs,
            "supercritical_liquid"@,
        ) || chars_eq_ci(cs, "SupercriticalLiquid"@) {
            Ok(Phase::SupercriticalLiquid)
        } else if chars_eq_ci(cs, "phase_critical_point"@) || chars_eq_ci(cs, "critical_point"@)
            || chars_eq_ci(cs, "CriticalPoint"@) {
            Ok(Phase::CriticalPoint)
        } else if chars_eq_ci(cs, "phase_gas"@) || chars_eq_ci(cs, "gas"@) {
            Ok(Phase::Gas)
        } else if chars_eq_ci(cs, "phase_twophase"@) || chars_eq_ci(cs, "phase_two_phase"@)
            || chars_eq_ci(cs, "two_phase"@) || chars_eq_ci(cs, "TwoPhase"@) {
            Ok(Phase::TwoPhase)
        } else if chars_eq_ci(cs, "phase_unknown"@) || chars_eq_ci(cs, "unknown"@) {
            Ok(Phase::Unknown)
        } else if chars_eq_ci(cs, "phase_not_imposed"@) || chars_eq_ci(cs, "not_imposed"@)
            || chars_eq_ci(cs, "NotImposed"@) {
            Ok(Phase::NotImposed)
        } else {
            Err(ParseError::VariantNotFound)
        }
    }

    /// Look a phase up by a symbolic name, case-insensitively, under
    /// its canonical name or any of its aliases.
    pub fn from_str(s: &str) -> (r: Result<Phase, ParseError>)
        ensures
            r == Phase::from_str_spec(s@),
    {
        if str_matches_ci(s, "phase_liquid") || str_matches_ci(s, "liquid") {
            Ok(Phase::Liquid)
        } else if str_matches_ci(s, "phase_supercritical") || str_matches_ci(s, "supercritical") {
            Ok(Phase::Supercritical)
        } else if str_matches_ci(s, "phase_supercritical_gas") || str_matches_ci(
            s,
            "supercritical_gas",
        ) || str_matches_ci(s, "SupercriticalGas") {
            Ok(Phase::SupercriticalGas)
        } else if str_matches_ci(s, "phase_supercritical_liquid") || str_matches_ci(
            s,
            "supercritical_liquid",
        ) || str_matches_ci(s, "SupercriticalLiquid") {
            Ok(Phase::SupercriticalLiquid)
        } else if str_matches_ci(s, "phase_critical_point") || str_matches_ci(
            s,
            "critical_point",
        ) || str_matches_ci(s, "CriticalPoint") {
            Ok(Phase::CriticalPoint)
        } else if str_matches_ci(s, "phase_gas") || str_matches_ci(s, "gas") {
            Ok(Phase::Gas)
        } else if str_matches_ci(s, "phase_twophase") || str_matches_ci(s, "phase_two_phase")
            || str_matches_ci(s, "two_phase") || str_matches_ci(s, "TwoPhase") {
            Ok(Phase::TwoPhase)
        } else if str_matches_ci(s, "phase_unknown") || str_matches_ci(s, "unknown") {
            Ok(Phase::Unknown)
        } else if str_matches_ci(s, "phase_not_imposed") || str_matches_ci(s, "not_imposed")
            || str_matches_ci(s, "NotImposed") {
            Ok(Phase::NotImposed)
        } else {
            Err(ParseError::VariantNotFound)
        }
    }
}

impl From<Phase> for u8 {
    fn from(value: Phase) -> (r: u8)
        ensures
            r == value.code_spec(),
    {
        value.code()
    }
}

impl vstd::std_specs::convert::FromSpecImpl<Phase> for u8 {
    open spec fn obeys_from_spec() -> bool {
        true
    }

    open spec fn from_spec(value: Phase) -> u8 {
        value.code_spec()
    }
}

/// Looking a phase's own code up yields the phase back, and a
/// successful code lookup yields a phase carrying that very code.
pub proof fn lemma_phase_code_round_trip(p: Phase, value: u8)
    ensures
        Phase::try_from_code_spec(p.code_spec()) == Ok::<Phase, ParseError>(p),
        Phase::try_from_code_spec(value) matches Ok(q) ==> q.code_spec() == value,
        Phase::try_from_code_spec(value) is Ok <==> value <= 8,
{
}

/// Looking a phase's canonical name up yields the phase back.
pub proof fn lemma_phase_name_round_trip(p: Phase)
    ensures
        Phase::from_str_spec(p.name_spec()) == Ok::<Phase, ParseError>(p),
{
    reveal_strlit("phase_liquid");
    reveal_strlit("liquid");
    reveal_strlit("phase_supercritical");
    reveal_strlit("supercritical");
    reveal_strlit("phase_supercritical_gas");
    reveal_strlit("supercritical_gas");
    reveal_strlit("phase_supercritical_liquid");
    reveal_strlit("supercritical_liquid");
    reveal_strlit("phase_critical_point");
    reveal_strlit("critical_point");
    reveal_strlit("phase_gas");
    reveal_strlit("gas");
    reveal_strlit("phase_twophase");
    reveal_strlit("phase_two_phase");
    reveal_strlit("two_phase");
    reveal_strlit("phase_unknown");
    reveal_strlit("unknown");
    reveal_strlit("phase_not_imposed");
    reveal_strlit("not_imposed");
    reveal_strlit("SupercriticalGas");
    reveal_strlit("SupercriticalLiquid");
    reveal_strlit("CriticalPoint");
    reveal_strlit("TwoPhase");
    reveal_strlit("NotImposed");
    crate::registry::lemma_chars_eq_ci_reflexive(p.name_spec());
    match p {
        Phase::CriticalPoint => {
            assert(!crate::registry::char_eq_ci(
                "phase_critical_point"@[0],
                "supercritical_liquid"@[0],
            ));
        },
        Phase::TwoPhase => {
            assert(!crate::registry::char_eq_ci("phase_twophase"@[0], "critical_point"@[0]));
        },
        Phase::Unknown => {
            assert(!crate::registry::char_eq_ci("phase_unknown"@[0], "supercritical"@[0]));
            assert(!crate::registry::char_eq_ci("phase_unknown"@[0], "CriticalPoint"@[0]));
        },
        Phase::NotImposed => {
            assert(!crate::registry::char_eq_ci(
                "phase_not_imposed"@[0],
                "supercritical_gas"@[0],
            ));
        },
        _ => {},
    }
}

} // verus!
