use rfluids::fluid_input::{FluidInput, KeyedInput};
use rfluids::fluid_param::FluidParam;

/// One SI unit in nano units.
const ONE: i64 = 1_000_000_000;

#[test]
fn density_always_returns_expected_key_and_si_value() {
    let sut = FluidInput::density(ONE);
    assert_eq!(sut.key(), FluidParam::DMass);
    assert_eq!(sut.si_value(), ONE);
}

#[test]
fn enthalpy_always_returns_expected_key_and_si_value() {
    let sut = FluidInput::enthalpy(ONE);
    assert_eq!(sut.key(), FluidParam::HMass);
    assert_eq!(sut.si_value(), ONE);
}

#[test]
fn entropy_always_returns_expected_key_and_si_value() {
    let sut = FluidInput::entropy(ONE);
    assert_eq!(sut.key(), FluidParam::SMass);
    assert_eq!(sut.si_value(), ONE);
}

#[test]
fn internal_energy_always_returns_expected_key_and_si_value() {
    let sut = FluidInput::internal_energy(ONE);
    assert_eq!(sut.key(), FluidParam::UMass);
    assert_eq!(sut.si_value(), ONE);
}

#[test]
fn molar_density_always_returns_expected_key_and_si_value() {
    let sut = FluidInput::molar_density(ONE);
    assert_eq!(sut.key(), FluidParam::DMolar);
    assert_eq!(sut.si_value(), ONE);
}

#[test]
fn molar_enthalpy_always_returns_expected_key_and_si_value() {
    let sut = FluidInput::molar_enthalpy(ONE);
    assert_eq!(sut.key(), FluidParam::HMolar);
    assert_eq!(sut.si_value(), ONE);
}

#[test]
fn molar_entropy_always_returns_expected_key_and_si_value() {
    let sut = FluidInput::molar_entropy(ONE);
    assert_eq!(sut.key(), FluidParam::SMolar);
    assert_eq!(sut.si_value(), ONE);
}

#[test]
fn molar_internal_energy_always_returns_expected_key_and_si_value() {
    let sut = FluidInput::molar_internal_energy(ONE);
    assert_eq!(sut.key(), FluidParam::UMolar);
    assert_eq!(sut.si_value(), ONE);
}

#[test]
fn pressure_always_returns_expected_key_and_si_value() {
    let sut = FluidInput::pressure(ONE);
    assert_eq!(sut.key(), FluidParam::P);
    assert_eq!(sut.si_value(), ONE);
}

#[test]
fn quality_returns_expected_key_and_si_value() {
    let sut = FluidInput::quality(ONE);
    assert_eq!(sut.key(), FluidParam::Q);
    assert_eq!(sut.si_value(), ONE);
}

#[test]
fn temperature_returns_expected_key_and_si_value() {
    let sut = FluidInput::temperature(ONE);
    assert_eq!(sut.key(), FluidParam::T);
    assert_eq!(sut.si_value(), ONE);
}
