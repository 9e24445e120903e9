use rfluids::backend::StubBackend;
use rfluids::binary_mix::{BinaryMix, BinaryMixture};
use rfluids::custom_mix::{CustomMix, CustomMixComponent};
use rfluids::error::FluidError;
use rfluids::fluid::Fluid;
use rfluids::fluid_input::FluidInput;
use rfluids::fluid_param::{FluidParam, FluidTrivialParam};
use rfluids::substance::{IncompPure, PredefinedMix, Pure, Refrigerant, Substance};
use rfluids::UndefinedState;

/// One pascal in nano units.
const PASCAL: i64 = 1_000_000_000;

/// 101325 Pa, in nano units.
const ATMOSPHERE: i64 = 101_325 * PASCAL;

/// 293.15 K, in nano units.
const ROOM_TEMPERATURE: i64 = 293_150_000_000;

/// A plausible water density answer, in nano kg/m3.
const WATER_DENSITY: i64 = 998_206_000_000;

fn water_backend() -> StubBackend {
    StubBackend::new(vec![(FluidParam::DMass.code(), WATER_DENSITY)])
}

#[test]
fn from_each_pure_does_not_panic() {
    for substance in Pure::all() {
        let _fluid =
            Fluid::<StubBackend, UndefinedState>::try_new(
                Substance::from(substance),
                StubBackend::new(vec![]),
            )
            .unwrap();
    }
}

#[test]
fn from_each_incomp_pure_does_not_panic() {
    for substance in IncompPure::all() {
        let _fluid =
            Fluid::<StubBackend, UndefinedState>::try_new(
                Substance::from(substance),
                StubBackend::new(vec![]),
            )
            .unwrap();
    }
}

#[test]
fn from_each_refrigerant_does_not_panic() {
    for substance in Refrigerant::all() {
        let _fluid =
            Fluid::<StubBackend, UndefinedState>::try_new(
                Substance::from(substance),
                StubBackend::new(vec![]),
            )
            .unwrap();
    }
}

#[test]
fn from_each_predefined_mix_does_not_panic() {
    for substance in PredefinedMix::all() {
        let _fluid =
            Fluid::<StubBackend, UndefinedState>::try_new(
                Substance::from(substance),
                StubBackend::new(vec![]),
            )
            .unwrap();
    }
}

#[test]
fn from_each_binary_mix_does_not_panic() {
    for kind in BinaryMix::all() {
        let fraction = kind.min_fraction()
            + (kind.max_fraction() - kind.min_fraction()) / 2;
        let mixture = BinaryMixture::try_new(kind, fraction).unwrap();
        let fluid =
            Fluid::<StubBackend, UndefinedState>::try_new(
                Substance::from(mixture),
                StubBackend::new(vec![]),
            )
            .unwrap();
        assert_eq!(fluid.backend().set_fractions_calls(), 1);
        assert_eq!(*fluid.backend().last_fractions(), vec![fraction]);
    }
}

#[test]
fn try_new_hands_custom_mix_fractions_to_the_backend() {
    let mix = CustomMix::mass_based(vec![
        (CustomMixComponent::from(Pure::Water), 600_000_000),
        (CustomMixComponent::from(Pure::Ethanol), 400_000_000),
    ])
    .unwrap();
    let fluid =
        Fluid::<StubBackend, UndefinedState>::try_new(
            Substance::from(mix),
            StubBackend::new(vec![]),
        )
        .unwrap();
    assert_eq!(fluid.backend().set_fractions_calls(), 1);
    assert_eq!(
        *fluid.backend().last_fractions(),
        vec![600_000_000, 400_000_000]
    );
}

#[test]
fn output_is_cached_and_second_call_does_not_reach_the_backend() {
    let fluid = Fluid::<StubBackend, UndefinedState>::try_new(
        Substance::from(Pure::Water),
        water_backend(),
    )
    .unwrap();
    let mut fluid = fluid
        .update(
            FluidInput::pressure(ATMOSPHERE),
            FluidInput::temperature(ROOM_TEMPERATURE),
        )
        .unwrap();
    assert_eq!(fluid.backend().update_calls(), 1);

    let first = fluid.output(FluidParam::DMass).unwrap();
    assert_eq!(first, WATER_DENSITY);
    assert_eq!(fluid.backend().output_calls(), 1);

    let second = fluid.output(FluidParam::DMass).unwrap();
    assert_eq!(second, first);
    assert_eq!(fluid.backend().output_calls(), 1);
}

#[test]
fn update_with_new_inputs_invalidates_the_output_cache() {
    let fluid = Fluid::<StubBackend, UndefinedState>::try_new(
        Substance::from(Pure::Water),
        water_backend(),
    )
    .unwrap();
    let mut fluid = fluid
        .update(
            FluidInput::pressure(ATMOSPHERE),
            FluidInput::temperature(ROOM_TEMPERATURE),
        )
        .unwrap();
    fluid.output(FluidParam::DMass).unwrap();
    assert_eq!(fluid.backend().output_calls(), 1);

    fluid
        .update(
            FluidInput::pressure(2 * ATMOSPHERE),
            FluidInput::temperature(ROOM_TEMPERATURE),
        )
        .unwrap();
    fluid.output(FluidParam::DMass).unwrap();
    assert_eq!(fluid.backend().output_calls(), 2);
}

#[test]
fn update_with_duplicate_params_fails_before_reaching_the_backend() {
    let fluid = Fluid::<StubBackend, UndefinedState>::try_new(
        Substance::from(Pure::Water),
        water_backend(),
    )
    .unwrap();
    let mut fluid = fluid
        .update(
            FluidInput::pressure(ATMOSPHERE),
            FluidInput::temperature(ROOM_TEMPERATURE),
        )
        .unwrap();
    assert_eq!(fluid.backend().update_calls(), 1);

    let result = fluid.update(
        FluidInput::pressure(ATMOSPHERE),
        FluidInput::pressure(2 * ATMOSPHERE),
    );
    assert_eq!(result.unwrap_err(), FluidError::DuplicateParam);
    assert_eq!(fluid.backend().update_calls(), 1);
}

#[test]
fn first_update_with_duplicate_params_is_rejected() {
    let fluid = Fluid::<StubBackend, UndefinedState>::try_new(
        Substance::from(Pure::Water),
        water_backend(),
    )
    .unwrap();
    let result = fluid.update(
        FluidInput::temperature(ROOM_TEMPERATURE),
        FluidInput::temperature(ROOM_TEMPERATURE + PASCAL),
    );
    assert_eq!(result.unwrap_err(), FluidError::DuplicateParam);
}

#[test]
fn update_rejected_by_the_backend_surfaces_the_backend_error() {
    let fluid = Fluid::<StubBackend, UndefinedState>::try_new(
        Substance::from(Pure::Water),
        StubBackend::rejecting(),
    )
    .unwrap();
    let result = fluid.update(
        FluidInput::pressure(ATMOSPHERE),
        FluidInput::temperature(ROOM_TEMPERATURE),
    );
    assert!(matches!(result, Err(FluidError::Backend(_))));
}

#[test]
fn output_for_unknown_parameter_surfaces_the_backend_error_and_caches_nothing() {
    let fluid = Fluid::<StubBackend, UndefinedState>::try_new(
        Substance::from(Pure::Water),
        water_backend(),
    )
    .unwrap();
    let mut fluid = fluid
        .update(
            FluidInput::pressure(ATMOSPHERE),
            FluidInput::temperature(ROOM_TEMPERATURE),
        )
        .unwrap();
    let result = fluid.output(FluidParam::HMass);
    assert!(matches!(result, Err(FluidError::Backend(_))));
    assert_eq!(fluid.backend().output_calls(), 1);
    // A failed query is not cached: asking again reaches the backend
    // again.
    let result = fluid.output(FluidParam::HMass);
    assert!(matches!(result, Err(FluidError::Backend(_))));
    assert_eq!(fluid.backend().output_calls(), 2);
}

#[test]
fn trivial_output_is_available_before_any_update_and_cached_forever() {
    let molar_mass_code = FluidTrivialParam::MolarMass.code();
    let mut fluid = Fluid::<StubBackend, UndefinedState>::try_new(
        Substance::from(Pure::Water),
        StubBackend::new(vec![(molar_mass_code, 18_015_268)]),
    )
    .unwrap();
    let first = fluid.trivial_output(FluidTrivialParam::MolarMass).unwrap();
    assert_eq!(first, 18_015_268);
    assert_eq!(fluid.backend().output_calls(), 1);

    let second = fluid.trivial_output(FluidTrivialParam::MolarMass).unwrap();
    assert_eq!(second, first);
    assert_eq!(fluid.backend().output_calls(), 1);
}

#[test]
fn trivial_output_cache_survives_updates() {
    let molar_mass_code = FluidTrivialParam::MolarMass.code();
    let fluid = Fluid::<StubBackend, UndefinedState>::try_new(
        Substance::from(Pure::Water),
        StubBackend::new(vec![(molar_mass_code, 18_015_268)]),
    )
    .unwrap();
    let mut fluid = fluid
        .update(
            FluidInput::pressure(ATMOSPHERE),
            FluidInput::temperature(ROOM_TEMPERATURE),
        )
        .unwrap();
    fluid.trivial_output(FluidTrivialParam::MolarMass).unwrap();
    assert_eq!(fluid.backend().output_calls(), 1);
    fluid
        .update(
            FluidInput::pressure(2 * ATMOSPHERE),
            FluidInput::temperature(ROOM_TEMPERATURE),
        )
        .unwrap();
    fluid.trivial_output(FluidTrivialParam::MolarMass).unwrap();
    assert_eq!(fluid.backend().output_calls(), 1);
}

#[test]
fn substance_is_kept_through_the_lifecycle() {
    let fluid = Fluid::<StubBackend, UndefinedState>::try_new(
        Substance::from(Pure::Water),
        water_backend(),
    )
    .unwrap();
    assert_eq!(*fluid.substance(), Substance::from(Pure::Water));
    let fluid = fluid
        .update(
            FluidInput::pressure(ATMOSPHERE),
            FluidInput::temperature(ROOM_TEMPERATURE),
        )
        .unwrap();
    assert_eq!(*fluid.substance(), Substance::from(Pure::Water));
}
