use rfluids::error::ParseError;
use rfluids::fluid_param::{FluidParam, FluidTrivialParam};
use rfluids::humid_air_param::HumidAirParam;

#[test]
fn fluid_param_code_round_trip_holds_for_every_parameter() {
    for param in FluidParam::all() {
        assert_eq!(FluidParam::try_from(param.code()), Ok(param));
    }
}

#[test]
fn fluid_param_name_round_trip_holds_for_every_parameter() {
    for param in FluidParam::all() {
        assert_eq!(FluidParam::from_str(param.as_ref()), Ok(param));
    }
}

#[test]
fn fluid_param_codes_are_contiguous_from_zero() {
    let all = FluidParam::all();
    for (i, param) in all.iter().enumerate() {
        assert_eq!(param.code() as usize, i);
    }
    assert_eq!(
        FluidParam::try_from(all.len() as u8),
        Err(ParseError::VariantNotFound)
    );
}

#[test]
fn fluid_trivial_param_code_round_trip_holds_for_every_parameter() {
    for (i, param) in FluidTrivialParam::all().into_iter().enumerate() {
        assert_eq!(param.code() as usize, 100 + i);
        assert_eq!(FluidTrivialParam::try_from(param.code()), Ok(param));
    }
}

#[test]
fn fluid_trivial_param_name_round_trip_holds_for_every_parameter() {
    for param in FluidTrivialParam::all() {
        assert_eq!(FluidTrivialParam::from_str(param.as_ref()), Ok(param));
    }
}

#[test]
fn humid_air_param_code_round_trip_holds_for_every_parameter() {
    for param in HumidAirParam::all() {
        assert_eq!(HumidAirParam::try_from(param.code()), Ok(param));
    }
}

#[test]
fn humid_air_param_name_round_trip_holds_for_every_parameter() {
    for param in HumidAirParam::all() {
        assert_eq!(HumidAirParam::from_str(param.as_ref()), Ok(param));
    }
}

#[test]
fn registries_are_not_conflated() {
    // The same numeric code names different things in different
    // registries.
    assert_eq!(FluidParam::try_from(0), Ok(FluidParam::DMass));
    assert_eq!(HumidAirParam::try_from(0), Ok(HumidAirParam::TDryBulb));
    // The trivial code space is numerically disjoint from the
    // state-dependent one, so one backend query channel can tell
    // them apart.
    assert_eq!(
        FluidTrivialParam::try_from(100),
        Ok(FluidTrivialParam::MolarMass)
    );
    assert_eq!(
        FluidTrivialParam::try_from(0),
        Err(ParseError::VariantNotFound)
    );
    assert_eq!(FluidParam::try_from(100), Err(ParseError::VariantNotFound));
}

#[test]
fn fluid_param_from_str_is_case_insensitive() {
    assert_eq!(FluidParam::from_str("dmass"), Ok(FluidParam::DMass));
    assert_eq!(FluidParam::from_str("DMASS"), Ok(FluidParam::DMass));
    assert_eq!(FluidParam::from_str("t"), Ok(FluidParam::T));
}

#[test]
fn fluid_param_from_unknown_str_returns_err() {
    assert_eq!(
        FluidParam::from_str("Viscosity"),
        Err(ParseError::VariantNotFound)
    );
    assert_eq!(FluidParam::from_str(""), Err(ParseError::VariantNotFound));
}

#[test]
fn fluid_param_from_nano_code_truncates_toward_zero() {
    assert_eq!(FluidParam::try_from_nano(4_700_000_000), Ok(FluidParam::P));
    assert_eq!(FluidParam::try_from_nano(-999_999_999), Ok(FluidParam::DMass));
    assert_eq!(
        FluidParam::try_from_nano(-1_000_000_000),
        Err(ParseError::VariantNotFound)
    );
    assert_eq!(
        FluidParam::try_from_nano(11_000_000_000),
        Err(ParseError::VariantNotFound)
    );
}
