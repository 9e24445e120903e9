use rfluids::binary_mix::{BinaryMix, BinaryMixture};
use rfluids::custom_mix::{CustomMix, CustomMixComponent};
use rfluids::substance::{
    BackendName, IncompPure, PredefinedMix, Pure, Refrigerant, RefrigerantCategory, Substance,
};

#[test]
fn pure_substances_use_the_heos_backend() {
    for substance in Pure::all() {
        assert_eq!(substance.backend_name(), "HEOS");
    }
}

#[test]
fn incompressible_substances_use_the_incomp_backend() {
    for substance in IncompPure::all() {
        assert_eq!(substance.backend_name(), "INCOMP");
    }
}

#[test]
fn refrigerants_use_the_heos_backend() {
    for substance in Refrigerant::all() {
        assert_eq!(substance.backend_name(), "HEOS");
    }
}

#[test]
fn refrigerant_categories_distinguish_compounds_from_blends() {
    assert_eq!(Refrigerant::R32.category(), RefrigerantCategory::Pure);
    assert_eq!(Refrigerant::R125.category(), RefrigerantCategory::Pure);
    assert_eq!(Refrigerant::R134a.category(), RefrigerantCategory::Pure);
    assert_eq!(
        Refrigerant::R404A.category(),
        RefrigerantCategory::ZeotropicBlend
    );
    assert_eq!(
        Refrigerant::R407C.category(),
        RefrigerantCategory::ZeotropicBlend
    );
    assert_eq!(
        Refrigerant::R507A.category(),
        RefrigerantCategory::AzeotropicBlend
    );
}

#[test]
fn substance_backend_name_follows_its_variant() {
    assert_eq!(Substance::from(Pure::Water).backend_name(), "HEOS");
    assert_eq!(Substance::from(IncompPure::Water).backend_name(), "INCOMP");
    assert_eq!(Substance::from(Refrigerant::R32).backend_name(), "HEOS");
    assert_eq!(Substance::from(PredefinedMix::Air).backend_name(), "HEOS");
    let binary = BinaryMixture::try_new(BinaryMix::MPG, 300_000_000).unwrap();
    assert_eq!(Substance::from(binary).backend_name(), "INCOMP");
    let custom = CustomMix::mass_based(vec![
        (CustomMixComponent::from(Pure::Water), 600_000_000),
        (CustomMixComponent::from(Pure::Ethanol), 400_000_000),
    ])
    .unwrap();
    assert_eq!(Substance::from(custom).backend_name(), "HEOS");
}

#[test]
fn backend_descriptor_names_the_substance_for_the_backend() {
    assert_eq!(
        Substance::from(Pure::Water).backend_descriptor(),
        "Water".to_string()
    );
    let binary = BinaryMixture::try_new(BinaryMix::LiBr, 400_000_000).unwrap();
    assert_eq!(Substance::from(binary).backend_descriptor(), "LiBr".to_string());
    let custom = CustomMix::mass_based(vec![
        (CustomMixComponent::from(Refrigerant::R32), 500_000_000),
        (CustomMixComponent::from(Refrigerant::R125), 500_000_000),
    ])
    .unwrap();
    assert_eq!(
        Substance::from(custom).backend_descriptor(),
        "R32&R125".to_string()
    );
}

#[test]
fn substance_names_are_the_canonical_backend_names() {
    assert_eq!(Pure::Water.as_ref(), "Water");
    assert_eq!(Pure::Ethanol.as_ref(), "Ethanol");
    assert_eq!(Refrigerant::R32.as_ref(), "R32");
    assert_eq!(Refrigerant::R125.as_ref(), "R125");
    assert_eq!(IncompPure::DEB.as_ref(), "DEB");
    assert_eq!(PredefinedMix::TypicalNaturalGas.as_ref(), "TypicalNaturalGas");
}
