use rfluids::custom_mix::{CustomMix, CustomMixComponent, RATIO_ONE};
use rfluids::error::CustomMixError;
use rfluids::substance::{BackendName, Pure, Refrigerant};

/// Half of one, in nano units.
const PCT_50: i64 = 500_000_000;

fn percent(p: i64) -> i64 {
    p * (RATIO_ONE / 100)
}

#[test]
fn mole_or_mass_based_from_valid_input_returns_ok() {
    let pure_pair = vec![
        (CustomMixComponent::from(Pure::Water), percent(60)),
        (CustomMixComponent::from(Pure::Ethanol), percent(40)),
    ];
    let refrigerant_pair = vec![
        (CustomMixComponent::from(Refrigerant::R32), percent(50)),
        (CustomMixComponent::from(Refrigerant::R125), percent(50)),
    ];
    assert!(CustomMix::mole_based(pure_pair.clone()).is_ok());
    assert!(CustomMix::mass_based(pure_pair).is_ok());
    assert!(CustomMix::mole_based(refrigerant_pair.clone()).is_ok());
    assert!(CustomMix::mass_based(refrigerant_pair).is_ok());
}

#[test]
fn mole_or_mass_based_from_single_component_returns_not_enough_components() {
    let single = vec![(CustomMixComponent::from(Pure::Water), percent(60))];
    assert_eq!(
        CustomMix::mole_based(single.clone()).unwrap_err(),
        CustomMixError::NotEnoughComponents
    );
    assert_eq!(
        CustomMix::mass_based(single).unwrap_err(),
        CustomMixError::NotEnoughComponents
    );
}

#[test]
fn mole_or_mass_based_from_duplicate_components_returns_not_enough_components() {
    let duplicated = vec![
        (CustomMixComponent::from(Pure::Water), percent(50)),
        (CustomMixComponent::from(Pure::Water), percent(50)),
    ];
    assert_eq!(
        CustomMix::mole_based(duplicated.clone()).unwrap_err(),
        CustomMixError::NotEnoughComponents
    );
    assert_eq!(
        CustomMix::mass_based(duplicated).unwrap_err(),
        CustomMixError::NotEnoughComponents
    );
}

#[test]
fn mole_or_mass_based_with_blend_refrigerant_returns_invalid_component() {
    let with_blend = vec![
        (CustomMixComponent::from(Refrigerant::R32), percent(50)),
        (CustomMixComponent::from(Refrigerant::R407C), percent(50)),
    ];
    assert_eq!(
        CustomMix::mole_based(with_blend.clone()).unwrap_err(),
        CustomMixError::InvalidComponent
    );
    assert_eq!(
        CustomMix::mass_based(with_blend).unwrap_err(),
        CustomMixError::InvalidComponent
    );
}

#[test]
fn mole_or_mass_based_with_negative_fraction_returns_invalid_fraction() {
    let negative = vec![
        (CustomMixComponent::from(Refrigerant::R32), -percent(50)),
        (CustomMixComponent::from(Refrigerant::R125), percent(50)),
    ];
    assert_eq!(
        CustomMix::mole_based(negative.clone()).unwrap_err(),
        CustomMixError::InvalidFraction
    );
    assert_eq!(
        CustomMix::mass_based(negative).unwrap_err(),
        CustomMixError::InvalidFraction
    );
}

#[test]
fn mole_or_mass_based_with_fraction_above_one_returns_invalid_fraction() {
    let too_large = vec![
        (CustomMixComponent::from(Refrigerant::R32), percent(150)),
        (CustomMixComponent::from(Refrigerant::R125), percent(50)),
    ];
    assert_eq!(
        CustomMix::mole_based(too_large.clone()).unwrap_err(),
        CustomMixError::InvalidFraction
    );
    assert_eq!(
        CustomMix::mass_based(too_large).unwrap_err(),
        CustomMixError::InvalidFraction
    );
}

#[test]
fn mole_or_mass_based_with_bad_sum_returns_invalid_fractions_sum() {
    let sum_eighty_percent = vec![
        (CustomMixComponent::from(Refrigerant::R32), percent(40)),
        (CustomMixComponent::from(Refrigerant::R125), percent(40)),
    ];
    assert_eq!(
        CustomMix::mole_based(sum_eighty_percent.clone()).unwrap_err(),
        CustomMixError::InvalidFractionsSum
    );
    assert_eq!(
        CustomMix::mass_based(sum_eighty_percent).unwrap_err(),
        CustomMixError::InvalidFractionsSum
    );
}

#[test]
fn duplicate_components_collapse_to_the_last_fraction() {
    let with_duplicate = vec![
        (CustomMixComponent::from(Pure::Water), percent(20)),
        (CustomMixComponent::from(Pure::Ethanol), percent(40)),
        (CustomMixComponent::from(Pure::Water), percent(60)),
    ];
    let mix = CustomMix::mole_based(with_duplicate).unwrap();
    assert_eq!(
        *mix.components(),
        vec![
            (CustomMixComponent::from(Pure::Water), percent(60)),
            (CustomMixComponent::from(Pure::Ethanol), percent(40)),
        ]
    );
}

#[test]
fn mole_or_mass_based_accepts_sum_inside_tolerance() {
    let just_inside = vec![
        (CustomMixComponent::from(Pure::Water), PCT_50),
        (CustomMixComponent::from(Pure::Ethanol), PCT_50 + 1_000),
    ];
    assert!(CustomMix::mole_based(just_inside).is_ok());
    let just_outside = vec![
        (CustomMixComponent::from(Pure::Water), PCT_50),
        (CustomMixComponent::from(Pure::Ethanol), PCT_50 + 1_001),
    ];
    assert_eq!(
        CustomMix::mole_based(just_outside).unwrap_err(),
        CustomMixError::InvalidFractionsSum
    );
}

#[test]
fn to_mole_based_from_mole_based_returns_same() {
    let sut = CustomMix::mole_based(vec![
        (CustomMixComponent::from(Pure::Water), percent(80)),
        (CustomMixComponent::from(Pure::Ethanol), percent(20)),
    ])
    .unwrap();
    let result = sut.to_mole_based();
    assert_eq!(result, sut);
    assert!(matches(&result, [("Water", percent(80)), ("Ethanol", percent(20))]));
}

#[test]
fn to_mole_based_from_mass_based_returns_other_with_converted_fractions() {
    let sut = CustomMix::mass_based(vec![
        (CustomMixComponent::from(Refrigerant::R32), percent(50)),
        (CustomMixComponent::from(Refrigerant::R125), percent(50)),
    ])
    .unwrap();
    let result = sut.to_mole_based();
    assert_ne!(result, sut);
    assert!(matches(&sut, [("R32", percent(50)), ("R125", percent(50))]));
    // Expected mole fractions 0.6976146993758624 and 0.30238530062413754,
    // to a tolerance of one millionth.
    assert!(matches(&result, [("R32", 697_614_699), ("R125", 302_385_300)]));
}

#[test]
fn to_mole_based_computes_exact_renormalized_fractions() {
    let sut = CustomMix::mass_based(vec![
        (CustomMixComponent::from(Refrigerant::R32), percent(50)),
        (CustomMixComponent::from(Refrigerant::R125), percent(50)),
    ])
    .unwrap();
    let result = sut.to_mole_based();
    let components = result.components();
    assert_eq!(components.len(), 2);
    assert_eq!(
        components[0],
        (CustomMixComponent::from(Refrigerant::R32), 697_614_699)
    );
    assert_eq!(
        components[1],
        (CustomMixComponent::from(Refrigerant::R125), 302_385_300)
    );
    // Renormalization sums back to one, short at most one nano unit
    // of rounding per component.
    let total: i64 = components.iter().map(|c| c.1).sum();
    assert_eq!(total, 999_999_999);
}

#[test]
fn to_mole_based_twice_equals_once() {
    let sut = CustomMix::mass_based(vec![
        (CustomMixComponent::from(Refrigerant::R32), percent(50)),
        (CustomMixComponent::from(Refrigerant::R125), percent(50)),
    ])
    .unwrap();
    let once = sut.to_mole_based();
    let twice = once.to_mole_based();
    assert_eq!(twice, once);
}

#[test]
fn backend_name_returns_heos() {
    let sut = CustomMix::mass_based(vec![
        (CustomMixComponent::from(Pure::Water), percent(60)),
        (CustomMixComponent::from(Pure::Ethanol), percent(40)),
    ])
    .unwrap();
    assert_eq!(sut.backend_name(), "HEOS");
}

#[test]
pub fn custom_mix_component_is_transparent() {
    assert_eq!(
        CustomMixComponent::from(Pure::Water).backend_name(),
        Pure::Water.backend_name()
    );
    assert_eq!(
        CustomMixComponent::from(Pure::Water).as_ref(),
        Pure::Water.as_ref()
    );
    assert_eq!(
        CustomMixComponent::from(Refrigerant::R32).backend_name(),
        Refrigerant::R32.backend_name()
    );
    assert_eq!(
        CustomMixComponent::from(Refrigerant::R32).as_ref(),
        Refrigerant::R32.as_ref()
    );
}

/// Whether the mixture holds exactly the expected components, each
/// with a fraction within one millionth of the expected one.
fn matches(mix: &CustomMix, expected: [(&str, i64); 2]) -> bool {
    const TOLERANCE: i64 = 1_000;
    mix.components().len() == expected.len()
        && mix
            .components()
            .iter()
            .filter(|component| {
                expected.iter().any(|exp| {
                    component.0.as_ref() == exp.0 && (component.1 - exp.1).abs() <= TOLERANCE
                })
            })
            .count()
            == expected.len()
}
