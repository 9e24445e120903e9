use rfluids::error::ParseError;
use rfluids::phase::Phase;

const ALL_PHASES: [(Phase, u8, &str); 9] = [
    (Phase::Liquid, 0, "phase_liquid"),
    (Phase::Supercritical, 1, "phase_supercritical"),
    (Phase::SupercriticalGas, 2, "phase_supercritical_gas"),
    (Phase::SupercriticalLiquid, 3, "phase_supercritical_liquid"),
    (Phase::CriticalPoint, 4, "phase_critical_point"),
    (Phase::Gas, 5, "phase_gas"),
    (Phase::TwoPhase, 6, "phase_twophase"),
    (Phase::Unknown, 7, "phase_unknown"),
    (Phase::NotImposed, 8, "phase_not_imposed"),
];

#[test]
fn as_ref_always_returns_expected_str() {
    for (phase, _, name) in ALL_PHASES {
        assert_eq!(phase.as_ref(), name);
    }
}

#[test]
fn u8_from_phase_always_returns_expected_value() {
    assert_eq!(u8::from(Phase::Gas), 5);
    for (phase, code, _) in ALL_PHASES {
        assert_eq!(u8::from(phase), code);
        assert_eq!(phase.code(), code);
    }
}

#[test]
fn try_from_valid_u8_returns_ok() {
    for (phase, code, _) in ALL_PHASES {
        assert_eq!(Phase::try_from(code), Ok(phase));
    }
}

#[test]
fn try_from_invalid_u8_returns_err() {
    assert_eq!(Phase::try_from(9), Err(ParseError::VariantNotFound));
    assert_eq!(Phase::try_from(254), Err(ParseError::VariantNotFound));
    assert_eq!(Phase::try_from(255), Err(ParseError::VariantNotFound));
}

#[test]
fn try_from_valid_nano_code_returns_ok() {
    for (phase, code, _) in ALL_PHASES {
        assert_eq!(Phase::try_from_nano(code as i64 * 1_000_000_000), Ok(phase));
    }
    // The fractional part is truncated toward zero before lookup.
    assert_eq!(Phase::try_from_nano(5_500_000_000), Ok(Phase::Gas));
    assert_eq!(Phase::try_from_nano(-500_000_000), Ok(Phase::Liquid));
}

#[test]
fn try_from_invalid_nano_code_returns_err() {
    assert_eq!(
        Phase::try_from_nano(-1_000_000_000),
        Err(ParseError::VariantNotFound)
    );
    assert_eq!(
        Phase::try_from_nano(255_000_000_000),
        Err(ParseError::VariantNotFound)
    );
    assert_eq!(
        Phase::try_from_nano(100_000_000_000_000),
        Err(ParseError::VariantNotFound)
    );
}

#[test]
fn from_valid_str_returns_ok() {
    let cases: [(&[&str], Phase); 9] = [
        (&["phase_liquid", "liquid"], Phase::Liquid),
        (&["phase_supercritical", "supercritical"], Phase::Supercritical),
        (
            &["phase_supercritical_gas", "supercritical_gas", "SupercriticalGas"],
            Phase::SupercriticalGas,
        ),
        (
            &["phase_supercritical_liquid", "supercritical_liquid", "SupercriticalLiquid"],
            Phase::SupercriticalLiquid,
        ),
        (
            &["phase_critical_point", "critical_point", "CriticalPoint"],
            Phase::CriticalPoint,
        ),
        (&["phase_gas", "gas"], Phase::Gas),
        (
            &["phase_twophase", "phase_two_phase", "two_phase", "TwoPhase"],
            Phase::TwoPhase,
        ),
        (&["phase_unknown", "unknown"], Phase::Unknown),
        (
            &["phase_not_imposed", "not_imposed", "NotImposed"],
            Phase::NotImposed,
        ),
    ];
    for (names, expected) in cases {
        for name in names {
            assert_eq!(Phase::from_str(name), Ok(expected));
        }
    }
}

#[test]
fn from_str_is_case_insensitive() {
    assert_eq!(Phase::from_str("PHASE_LIQUID"), Ok(Phase::Liquid));
    assert_eq!(Phase::from_str("Liquid"), Ok(Phase::Liquid));
    assert_eq!(Phase::from_str("supercriticalgas"), Ok(Phase::SupercriticalGas));
    assert_eq!(Phase::from_str("TWO_PHASE"), Ok(Phase::TwoPhase));
}

#[test]
fn from_invalid_str_returns_err() {
    assert_eq!(Phase::from_str(""), Err(ParseError::VariantNotFound));
    assert_eq!(
        Phase::from_str("Hello, World!"),
        Err(ParseError::VariantNotFound)
    );
}

#[test]
fn name_round_trip_holds_for_every_phase() {
    for (phase, code, name) in ALL_PHASES {
        assert_eq!(Phase::from_str(name), Ok(phase));
        assert_eq!(Phase::try_from(code).unwrap().as_ref(), name);
    }
}
