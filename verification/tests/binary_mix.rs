use rfluids::binary_mix::{BinaryMix, BinaryMixture};
use rfluids::error::BinaryMixError;
use rfluids::substance::BackendName;

#[test]
fn backend_name_always_returns_incomp() {
    for substance in BinaryMix::all() {
        assert_eq!(substance.backend_name(), "INCOMP");
    }
}

#[test]
fn min_max_fractions_return_expected_values_for_known_kinds() {
    assert_eq!(BinaryMix::MPG.min_fraction(), 0);
    assert_eq!(BinaryMix::MPG.max_fraction(), 600_000_000);
    assert_eq!(BinaryMix::FRE.min_fraction(), 190_000_000);
    assert_eq!(BinaryMix::FRE.max_fraction(), 500_000_000);
    assert_eq!(BinaryMix::MAM2.min_fraction(), 78_000_000);
    assert_eq!(BinaryMix::MAM2.max_fraction(), 236_000_000);
    assert_eq!(BinaryMix::ZM.min_fraction(), 0);
    assert_eq!(BinaryMix::ZM.max_fraction(), 1_000_000_000);
}

#[test]
fn as_ref_returns_expected_names_for_known_kinds() {
    assert_eq!(BinaryMix::MPG.as_ref(), "MPG");
    assert_eq!(BinaryMix::FRE.as_ref(), "FRE");
    assert_eq!(BinaryMix::IceEA.as_ref(), "IceEA");
    assert_eq!(BinaryMix::LiBr.as_ref(), "LiBr");
}

#[test]
fn try_new_accepts_every_fraction_within_bounds() {
    for kind in BinaryMix::all() {
        let min = kind.min_fraction();
        let max = kind.max_fraction();
        let mid = min + (max - min) / 2;
        for fraction in [min, mid, max] {
            let mixture = BinaryMixture::try_new(kind, fraction).unwrap();
            assert_eq!(mixture.kind(), kind);
            assert_eq!(mixture.fraction(), fraction);
        }
    }
}

#[test]
fn try_new_rejects_fractions_one_unit_outside_bounds() {
    for kind in BinaryMix::all() {
        assert_eq!(
            BinaryMixture::try_new(kind, kind.min_fraction() - 1).unwrap_err(),
            BinaryMixError::InvalidFraction
        );
        assert_eq!(
            BinaryMixture::try_new(kind, kind.max_fraction() + 1).unwrap_err(),
            BinaryMixError::InvalidFraction
        );
    }
}
