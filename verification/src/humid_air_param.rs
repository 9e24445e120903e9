//! Humid air parameter key registry: the parameters of humid air
//! property evaluation, with their own code space, independent of
//! the fluid and phase registries.

use vstd::prelude::*;

use crate::error::ParseError;
use crate::registry::{chars_eq_ci, nano_trunc, str_matches_ci};

verus! {

/// Parameters of humid air.
#[derive(Debug, Copy, Clone, Eq, PartialEq, Structural)]
pub enum HumidAirParam {
    /// Dry-bulb temperature (SI units: K).
    TDryBulb,
    /// Wet-bulb temperature (SI units: K).
    TWetBulb,
    /// Dew-point temperature (SI units: K).
    TDewPoint,
    /// Relative humidity (dimensionless, from 0 to 1).
    RelHumidity,
    /// Humidity ratio (SI units: kg water / kg dry air).
    HumidityRatio,
    /// Absolute pressure (SI units: Pa).
    Pressure,
    /// Specific enthalpy per dry air (SI units: J/kg).
    SpecificEnthalpy,
    /// Specific volume per dry air (SI units: m3/kg).
    SpecificVolume,
}

impl HumidAirParam {
    /// Stable numeric code of the parameter.
    pub open spec fn code_spec(self) -> u8 {
        match self {
            HumidAirParam::TDryBulb => 0,
            HumidAirParam::TWetBulb => 1,
            HumidAirParam::TDewPoint => 2,
            HumidAirParam::RelHumidity => 3,
            HumidAirParam::HumidityRatio => 4,
            HumidAirParam::Pressure => 5,
            HumidAirParam::SpecificEnthalpy => 6,
            HumidAirParam::SpecificVolume => 7,
        }
    }

    /// Stable numeric code of the parameter.
    pub fn code(&self) -> (r: u8)
        ensures
            r == self.code_spec(),
    {
        match self {
            HumidAirParam::TDryBulb => 0,
            HumidAirParam::TWetBulb => 1,
            HumidAirParam::TDewPoint => 2,
            HumidAirParam::RelHumidity => 3,
            HumidAirParam::HumidityRatio => 4,
            HumidAirParam::Pressure => 5,
            HumidAirParam::SpecificEnthalpy => 6,
            HumidAirParam::SpecificVolume => 7,
        }
    }

    /// The parameter registered under a numeric code, if any.
    pub open spec fn try_from_code_spec(value: u8) -> Result<HumidAirParam, ParseError> {
        if value == 0 {
            Ok(HumidAirParam::TDryBulb)
        } else if value == 1 {
            Ok(HumidAirParam::TWetBulb)
        } else if value == 2 {
            Ok(HumidAirParam::TDewPoint)
        } else if value == 3 {
            Ok(HumidAirParam::RelHumidity)
        } else if value == 4 {
            Ok(HumidAirParam::HumidityRatio)
        } else if value == 5 {
            Ok(HumidAirParam::Pressure)
        } else if value == 6 {
            Ok(HumidAirParam::SpecificEnthalpy)
        } else if value == 7 {
            Ok(HumidAirParam::SpecificVolume)
        } else {
            Err(ParseError::VariantNotFound)
        }
    }

    /// Look a parameter up by its numeric code.  Succeeds exactly on
    /// the registered codes.
    pub fn try_from(value: u8) -> (r: Result<HumidAirParam, ParseError>)
        ensures
            r == HumidAirParam::try_from_code_spec(value),
    {
        if value == 0 {
            Ok(HumidAirParam::TDryBulb)
        } else if value == 1 {
            Ok(HumidAirParam::TWetBulb)
        } else if value == 2 {
            Ok(HumidAirParam::TDewPoint)
        } else if value == 3 {
            Ok(HumidAirParam::RelHumidity)
        } else if value == 4 {
            Ok(HumidAirParam::HumidityRatio)
        } else if value == 5 {
            Ok(HumidAirParam::Pressure)
        } else if value == 6 {
            Ok(HumidAirParam::SpecificEnthalpy)
        } else if value == 7 {
            Ok(HumidAirParam::SpecificVolume)
        } else {
            Err(ParseError::VariantNotFound)
        }
    }

    /// The parameter registered under a fixed-point nano code: the
    /// code is truncated toward zero, any fractional part silently
    /// discarded, and the integer part then validated.
    pub open spec fn try_from_nano_spec(value: i64) -> Result<HumidAirParam, ParseError> {
        if nano_trunc(value) < 0 || nano_trunc(value) > 255 {
            Err(ParseError::VariantNotFound)
        } else {
            HumidAirParam::try_from_code_spec(nano_trunc(value) as u8)
        }
    }

    /// Look a parameter up by a fixed-point nano code, as decoded
    /// from a fractional backend return: truncate toward zero first,
    /// then validate the integer part.
    pub fn try_from_nano(value: i64) -> (r: Result<HumidAirParam, ParseError>)
        ensures
            r == HumidAirParam::try_from_nano_spec(value),
    {
        if value <= -1_000_000_000 {
            Err(ParseError::VariantNotFound)
        } else if value < 0 {
            HumidAirParam::try_from(0)
        } else {
            let q = value / 1_000_000_000;
            if q > 255 {
                Err(ParseError::VariantNotFound)
            } else {
                HumidAirParam::try_from(q as u8)
            }
        }
    }

    /// Canonical symbolic name, as a mathematical character sequence.
    pub open spec fn name_spec(self) -> Seq<char> {
        match self {
            HumidAirParam::TDryBulb => "Tdb"@,
            HumidAirParam::TWetBulb => "Twb"@,
            HumidAirParam::TDewPoint => "Tdp"@,
            HumidAirParam::RelHumidity => "R"@,
            HumidAirParam::HumidityRatio => "W"@,
            HumidAirParam::Pressure => "P"@,
            HumidAirParam::SpecificEnthalpy => "Hda"@,
            HumidAirParam::SpecificVolume => "Vda"@,
        }
    }

    /// Canonical symbolic name.
    pub fn as_ref(&self) -> (r: &'static str)
        ensures
            r@ == self.name_spec(),
    {
        match self {
            HumidAirParam::TDryBulb => "Tdb",
            HumidAirParam::TWetBulb => "Twb",
            HumidAirParam::TDewPoint => "Tdp",
            HumidAirParam::RelHumidity => "R",
            HumidAirParam::HumidityRatio => "W",
            HumidAirParam::Pressure => "P",
            HumidAirParam::SpecificEnthalpy => "Hda",
            HumidAirParam::SpecificVolume => "Vda",
        }
    }

    /// The parameter registered under a symbolic name, compared
    /// without regard to ASCII case.
    pub open spec fn from_str_spec(cs: Seq<char>) -> Result<HumidAirParam, ParseError> {
        if chars_eq_ci(cs, "Tdb"@) {
            Ok(HumidAirParam::TDryBulb)
        } else if chars_eq_ci(cs, "Twb"@) {
            Ok(HumidAirParam::TWetBulb)
        } else if chars_eq_ci(cs, "Tdp"@) {
            Ok(HumidAirParam::TDewPoint)
        } else if chars_eq_ci(cs, "R"@) {
            Ok(HumidAirParam::RelHumidity)
        } else if chars_eq_ci(cs, "W"@) {
            Ok(HumidAirParam::HumidityRatio)
        } else if chars_eq_ci(cs, "P"@) {
            Ok(HumidAirParam::Pressure)
        } else if chars_eq_ci(cs, "Hda"@) {
            Ok(HumidAirParam::SpecificEnthalpy)
        } else if chars_eq_ci(cs, "Vda"@) {
            Ok(HumidAirParam::SpecificVolume)
        } else {
            Err(ParseError::VariantNotFound)
        }
    }

    /// Look a parameter up by its symbolic name, case-insensitively.
    pub fn from_str(s: &str) -> (r: Result<HumidAirParam, ParseError>)
        ensures
            r == HumidAirParam::from_str_spec(s@),
    {
        if str_matches_ci(s, "Tdb") {
            Ok(HumidAirParam::TDryBulb)
        } else if str_matches_ci(s, "Twb") {
            Ok(HumidAirParam::TWetBulb)
        } else if str_matches_ci(s, "Tdp") {
            Ok(HumidAirParam::TDewPoint)
        } else if str_matches_ci(s, "R") {
            Ok(HumidAirParam::RelHumidity)
        } else if str_matches_ci(s, "W") {
            Ok(HumidAirParam::HumidityRatio)
        } else if str_matches_ci(s, "P") {
            Ok(HumidAirParam::Pressure)
        } else if str_matches_ci(s, "Hda") {
            Ok(HumidAirParam::SpecificEnthalpy)
        } else if str_matches_ci(s, "Vda") {
            Ok(HumidAirParam::SpecificVolume)
        } else {
            Err(ParseError::VariantNotFound)
        }
    }

    /// All registered parameters, each exactly once.
    pub fn all() -> (r: Vec<HumidAirParam>)
        ensures
            r@ == seq![
                HumidAirParam::TDryBulb,
                HumidAirParam::TWetBulb,
                HumidAirParam::TDewPoint,
                HumidAirParam::RelHumidity,
                HumidAirParam::HumidityRatio,
                HumidAirParam::Pressure,
                HumidAirParam::SpecificEnthalpy,
                HumidAirParam::SpecificVolume
            ],
    {
        let mut v: Vec<HumidAirParam> = Vec::new();
        v.push(HumidAirParam::TDryBulb);
        v.push(HumidAirParam::TWetBulb);
        v.push(HumidAirParam::TDewPoint);
        v.push(HumidAirParam::RelHumidity);
        v.push(HumidAirParam::HumidityRatio);
        v.push(HumidAirParam::Pressure);
        v.push(HumidAirParam::SpecificEnthalpy);
        v.push(HumidAirParam::SpecificVolume);
        proof {
            assert(v@ =~= seq![
                HumidAirParam::TDryBulb,
                HumidAirParam::TWetBulb,
                HumidAirParam::TDewPoint,
                HumidAirParam::RelHumidity,
                HumidAirParam::HumidityRatio,
                HumidAirParam::Pressure,
                HumidAirParam::SpecificEnthalpy,
                HumidAirParam::SpecificVolume
            ]);
        }
        v
    }
}

/// Looking a parameter's own code up yields the parameter back, and
/// a successful code lookup yields a parameter carrying that very
/// code.
pub proof fn lemma_humid_air_param_code_round_trip(p: HumidAirParam, value: u8)
    ensures
        HumidAirParam::try_from_code_spec(p.code_spec()) == Ok::<HumidAirParam, ParseError>(p),
        HumidAirParam::try_from_code_spec(value) matches Ok(q) ==> q.code_spec() == value,
        HumidAirParam::try_from_code_spec(value) is Ok <==> value < 8,
{
}

/// Looking a parameter's canonical name up yields the parameter
/// back.
pub proof fn lemma_humid_air_param_name_round_trip(p: HumidAirParam)
    ensures
        HumidAirParam::from_str_spec(p.name_spec()) == Ok::<HumidAirParam, ParseError>(p),
{
    reveal_strlit("Tdb");
    reveal_strlit("Twb");
    reveal_strlit("Tdp");
    reveal_strlit("R");
    reveal_strlit("W");
    reveal_strlit("P");
    reveal_strlit("Hda");
    reveal_strlit("Vda");
    crate::registry::lemma_chars_eq_ci_reflexive(p.name_spec());
    match p {
        HumidAirParam::TWetBulb => {
            assert(!crate::registry::char_eq_ci("Twb"@[1], "Tdb"@[1]));
        },
        HumidAirParam::TDewPoint => {
            assert(!crate::registry::char_eq_ci("Tdp"@[2], "Tdb"@[2]));
            assert(!crate::registry::char_eq_ci("Tdp"@[1], "Twb"@[1]));
        },
        HumidAirParam::HumidityRatio => {
            assert(!crate::registry::char_eq_ci("W"@[0], "R"@[0]));
        },
        HumidAirParam::Pressure => {
            assert(!crate::registry::char_eq_ci("P"@[0], "R"@[0]));
            assert(!crate::registry::char_eq_ci("P"@[0], "W"@[0]));
        },
        HumidAirParam::SpecificEnthalpy => {
            assert(!crate::registry::char_eq_ci("Hda"@[0], "Tdb"@[0]));
            assert(!crate::registry::char_eq_ci("Hda"@[0], "Twb"@[0]));
            assert(!crate::registry::char_eq_ci("Hda"@[0], "Tdp"@[0]));
        },
        HumidAirParam::SpecificVolume => {
            assert(!crate::registry::char_eq_ci("Vda"@[0], "Tdb"@[0]));
            assert(!crate::registry::char_eq_ci("Vda"@[0], "Twb"@[0]));
            assert(!crate::registry::char_eq_ci("Vda"@[0], "Tdp"@[0]));
            assert(!crate::registry::char_eq_ci("Vda"@[0], "Hda"@[0]));
        },
        _ => {},
    }
}

} // verus!
