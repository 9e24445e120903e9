//! Incompressible binary mixtures: a closed set of mixture kinds,
//! each with static fraction bounds, and a validated pairing of a
//! kind with a concrete fraction.
//!
//! Fractions are fixed-point ratios in nano units: a fraction of one
//! is `1_000_000_000`.

use vstd::prelude::*;

use crate::error::BinaryMixError;
use crate::substance::BackendName;

verus! {

/// Kinds of incompressible binary mixtures (mass-based or
/// volume-based).
#[derive(Debug, Copy, Clone, Eq, PartialEq, Structural)]
pub enum BinaryMix {
    /// Kind `FRE` (fractions from 0.19 to 0.5).
    FRE,
    /// Kind `IceEA` (fractions from 0.05 to 0.35).
    IceEA,
    /// Kind `IceNA` (fractions from 0.05 to 0.35).
    IceNA,
    /// Kind `IcePG` (fractions from 0.05 to 0.35).
    IcePG,
    /// Kind `LiBr` (fractions from 0.0 to 0.75).
    LiBr,
    /// Kind `MAM` (fractions from 0.0 to 0.3).
    MAM,
    /// Kind `MAM2` (fractions from 0.078 to 0.236).
    MAM2,
    /// Kind `MCA` (fractions from 0.0 to 0.3).
    MCA,
    /// Kind `MCA2` (fractions from 0.09 to 0.294).
    MCA2,
    /// Kind `MEA` (fractions from 0.0 to 0.6).
    MEA,
    /// Kind `MEA2` (fractions from 0.11 to 0.6).
    MEA2,
    /// Kind `MEG` (fractions from 0.0 to 0.6).
    MEG,
    /// Kind `MEG2` (fractions from 0.0 to 0.56).
    MEG2,
    /// Kind `MGL` (fractions from 0.0 to 0.6).
    MGL,
    /// Kind `MGL2` (fractions from 0.195 to 0.63).
    MGL2,
    /// Kind `MITSW` (fractions from 0.0 to 0.12).
    MITSW,
    /// Kind `MKA` (fractions from 0.0 to 0.45).
    MKA,
    /// Kind `MKA2` (fractions from 0.11 to 0.41).
    MKA2,
    /// Kind `MKC` (fractions from 0.0 to 0.4).
    MKC,
    /// Kind `MKC2` (fractions from 0.0 to 0.39).
    MKC2,
    /// Kind `MKF` (fractions from 0.0 to 0.48).
    MKF,
    /// Kind `MLI` (fractions from 0.0 to 0.24).
    MLI,
    /// Kind `MMA` (fractions from 0.0 to 0.6).
    MMA,
    /// Kind `MMA2` (fractions from 0.078 to 0.474).
    MMA2,
    /// Kind `MMG` (fractions from 0.0 to 0.3).
    MMG,
    /// Kind `MMG2` (fractions from 0.0 to 0.205).
    MMG2,
    /// Kind `MNA` (fractions from 0.0 to 0.23).
    MNA,
    /// Kind `MNA2` (fractions from 0.0 to 0.23).
    MNA2,
    /// Kind `MPG` (fractions from 0.0 to 0.6).
    MPG,
    /// Kind `MPG2` (fractions from 0.15 to 0.57).
    MPG2,
    /// Kind `VCA` (fractions from 0.147 to 0.299).
    VCA,
    /// Kind `VKC` (fractions from 0.128 to 0.389).
    VKC,
    /// Kind `VMA` (fractions from 0.1 to 0.9).
    VMA,
    /// Kind `VMG` (fractions from 0.072 to 0.206).
    VMG,
    /// Kind `VNA` (fractions from 0.07 to 0.231).
    VNA,
    /// Kind `AEG` (fractions from 0.1 to 0.6).
    AEG,
    /// Kind `AKF` (fractions from 0.4 to 1.0).
    AKF,
    /// Kind `AL` (fractions from 0.1 to 0.6).
    AL,
    /// Kind `AN` (fractions from 0.1 to 0.6).
    AN,
    /// Kind `APG` (fractions from 0.1 to 0.6).
    APG,
    /// Kind `GKN` (fractions from 0.1 to 0.6).
    GKN,
    /// Kind `PK2` (fractions from 0.3 to 1.0).
    PK2,
    /// Kind `PKL` (fractions from 0.1 to 0.6).
    PKL,
    /// Kind `ZAC` (fractions from 0.06 to 0.5).
    ZAC,
    /// Kind `ZFC` (fractions from 0.3 to 0.6).
    ZFC,
    /// Kind `ZLC` (fractions from 0.3 to 0.7).
    ZLC,
    /// Kind `ZM` (fractions from 0.0 to 1.0).
    ZM,
    /// Kind `ZMC` (fractions from 0.3 to 0.7).
    ZMC,
}

impl BinaryMix {
    /// Minimum possible fraction, in nano units.
    pub open spec fn min_fraction_spec(self) -> i64 {
        match self {
            BinaryMix::FRE => 190_000_000,
            BinaryMix::IceEA => 50_000_000,
            BinaryMix::IceNA => 50_000_000,
            BinaryMix::IcePG => 50_000_000,
            BinaryMix::LiBr => 0,
            BinaryMix::MAM => 0,
            BinaryMix::MAM2 => 78_000_000,
            BinaryMix::MCA => 0,
            BinaryMix::MCA2 => 90_000_000,
            BinaryMix::MEA => 0,
            BinaryMix::MEA2 => 110_000_000,
            BinaryMix::MEG => 0,
            BinaryMix::MEG2 => 0,
            BinaryMix::MGL => 0,
            BinaryMix::MGL2 => 195_000_000,
            BinaryMix::MITSW => 0,
            BinaryMix::MKA => 0,
            BinaryMix::MKA2 => 110_000_000,
            BinaryMix::MKC => 0,
            BinaryMix::MKC2 => 0,
            BinaryMix::MKF => 0,
            BinaryMix::MLI => 0,
            BinaryMix::MMA => 0,
            BinaryMix::MMA2 => 78_000_000,
            BinaryMix::MMG => 0,
            BinaryMix::MMG2 => 0,
            BinaryMix::MNA => 0,
            BinaryMix::MNA2 => 0,
            BinaryMix::MPG => 0,
            BinaryMix::MPG2 => 150_000_000,
            BinaryMix::VCA => 147_000_000,
            BinaryMix::VKC => 128_000_000,
            BinaryMix::VMA => 100_000_000,
            BinaryMix::VMG => 72_000_000,
            BinaryMix::VNA => 70_000_000,
            BinaryMix::AEG => 100_000_000,
            BinaryMix::AKF => 400_000_000,
            BinaryMix::AL => 100_000_000,
            BinaryMix::AN => 100_000_000,
            BinaryMix::APG => 100_000_000,
            BinaryMix::GKN => 100_000_000,
            BinaryMix::PK2 => 300_000_000,
            BinaryMix::PKL => 100_000_000,
            BinaryMix::ZAC => 60_000_000,
            BinaryMix::ZFC => 300_000_000,
            BinaryMix::ZLC => 300_000_000,
            BinaryMix::ZM => 0,
            BinaryMix::ZMC => 300_000_000,
        }
    }

    /// Maximum possible fraction, in nano units.
    pub open spec fn max_fraction_spec(self) -> i64 {
        match self {
            BinaryMix::FRE => 500_000_000,
            BinaryMix::IceEA => 350_000_000,
            BinaryMix::IceNA => 350_000_000,
            BinaryMix::IcePG => 350_000_000,
            BinaryMix::LiBr => 750_000_000,
            BinaryMix::MAM => 300_000_000,
            BinaryMix::MAM2 => 236_000_000,
            BinaryMix::MCA => 300_000_000,
            BinaryMix::MCA2 => 294_000_000,
            BinaryMix::MEA => 600_000_000,
            BinaryMix::MEA2 => 600_000_000,
            BinaryMix::MEG => 600_000_000,
            BinaryMix::MEG2 => 560_000_000,
            BinaryMix::MGL => 600_000_000,
            BinaryMix::MGL2 => 630_000_000,
            BinaryMix::MITSW => 120_000_000,
            BinaryMix::MKA => 450_000_000,
            BinaryMix::MKA2 => 410_000_000,
            BinaryMix::MKC => 400_000_000,
            BinaryMix::MKC2 => 390_000_000,
            BinaryMix::MKF => 480_000_000,
            BinaryMix::MLI => 240_000_000,
            BinaryMix::MMA => 600_000_000,
            BinaryMix::MMA2 => 474_000_000,
            BinaryMix::MMG => 300_000_000,
            BinaryMix::MMG2 => 205_000_000,
            BinaryMix::MNA => 230_000_000,
            BinaryMix::MNA2 => 230_000_000,
            BinaryMix::MPG => 600_000_000,
            BinaryMix::MPG2 => 570_000_000,
            BinaryMix::VCA => 299_000_000,
            BinaryMix::VKC => 389_000_000,
            BinaryMix::VMA => 900_000_000,
            BinaryMix::VMG => 206_000_000,
            BinaryMix::VNA => 231_000_000,
            BinaryMix::AEG => 600_000_000,
            BinaryMix::AKF => 1_000_000_000,
            BinaryMix::AL => 600_000_000,
            BinaryMix::AN => 600_000_000,
            BinaryMix::APG => 600_000_000,
            BinaryMix::GKN => 600_000_000,
            BinaryMix::PK2 => 1_000_000_000,
            BinaryMix::PKL => 600_000_000,
            BinaryMix::ZAC => 500_000_000,
            BinaryMix::ZFC => 600_000_000,
            BinaryMix::ZLC => 700_000_000,
            BinaryMix::ZM => 1_000_000_000,
            BinaryMix::ZMC => 700_000_000,
        }
    }

    /// Minimum possible fraction, in nano units.
    pub fn min_fraction(&self) -> (r: i64)
        ensures
            r == self.min_fraction_spec(),
    {
        match self {
            BinaryMix::FRE => 190_000_000,
            BinaryMix::IceEA => 50_000_000,
            BinaryMix::IceNA => 50_000_000,
            BinaryMix::IcePG => 50_000_000,
            BinaryMix::LiBr => 0,
            BinaryMix::MAM => 0,
            BinaryMix::MAM2 => 78_000_000,
            BinaryMix::MCA => 0,
            BinaryMix::MCA2 => 90_000_000,
            BinaryMix::MEA => 0,
            BinaryMix::MEA2 => 110_000_000,
            BinaryMix::MEG => 0,
            BinaryMix::MEG2 => 0,
            BinaryMix::MGL => 0,
            BinaryMix::MGL2 => 195_000_000,
            BinaryMix::MITSW => 0,
            BinaryMix::MKA => 0,
            BinaryMix::MKA2 => 110_000_000,
            BinaryMix::MKC => 0,
            BinaryMix::MKC2 => 0,
            BinaryMix::MKF => 0,
            BinaryMix::MLI => 0,
            BinaryMix::MMA => 0,
            BinaryMix::MMA2 => 78_000_000,
            BinaryMix::MMG => 0,
            BinaryMix::MMG2 => 0,
            BinaryMix::MNA => 0,
            BinaryMix::MNA2 => 0,
            BinaryMix::MPG => 0,
            BinaryMix::MPG2 => 150_000_000,
            BinaryMix::VCA => 147_000_000,
            BinaryMix::VKC => 128_000_000,
            BinaryMix::VMA => 100_000_000,
            BinaryMix::VMG => 72_000_000,
            BinaryMix::VNA => 70_000_000,
            BinaryMix::AEG => 100_000_000,
            BinaryMix::AKF => 400_000_000,
            BinaryMix::AL => 100_000_000,
            BinaryMix::AN => 100_000_000,
            BinaryMix::APG => 100_000_000,
            BinaryMix::GKN => 100_000_000,
            BinaryMix::PK2 => 300_000_000,
            BinaryMix::PKL => 100_000_000,
            BinaryMix::ZAC => 60_000_000,
            BinaryMix::ZFC => 300_000_000,
            BinaryMix::ZLC => 300_000_000,
            BinaryMix::ZM => 0,
            BinaryMix::ZMC => 300_000_000,
        }
    }

    /// Maximum possible fraction, in nano units.
    pub fn max_fraction(&self) -> (r: i64)
        ensures
            r == self.max_fraction_spec(),
    {
        match self {
            BinaryMix::FRE => 500_000_000,
            BinaryMix::IceEA => 350_000_000,
            BinaryMix::IceNA => 350_000_000,
            BinaryMix::IcePG => 350_000_000,
            BinaryMix::LiBr => 750_000_000,
            BinaryMix::MAM => 300_000_000,
            BinaryMix::MAM2 => 236_000_000,
            BinaryMix::MCA => 300_000_000,
            BinaryMix::MCA2 => 294_000_000,
            BinaryMix::MEA => 600_000_000,
            BinaryMix::MEA2 => 600_000_000,
            BinaryMix::MEG => 600_000_000,
            BinaryMix::MEG2 => 560_000_000,
            BinaryMix::MGL => 600_000_000,
            BinaryMix::MGL2 => 630_000_000,
            BinaryMix::MITSW => 120_000_000,
            BinaryMix::MKA => 450_000_000,
            BinaryMix::MKA2 => 410_000_000,
            BinaryMix::MKC => 400_000_000,
            BinaryMix::MKC2 => 390_000_000,
            BinaryMix::MKF => 480_000_000,
            BinaryMix::MLI => 240_000_000,
            BinaryMix::MMA => 600_000_000,
            BinaryMix::MMA2 => 474_000_000,
            BinaryMix::MMG => 300_000_000,
            BinaryMix::MMG2 => 205_000_000,
            BinaryMix::MNA => 230_000_000,
            BinaryMix::MNA2 => 230_000_000,
            BinaryMix::MPG => 600_000_000,
            BinaryMix::MPG2 => 570_000_000,
            BinaryMix::VCA => 299_000_000,
            BinaryMix::VKC => 389_000_000,
            BinaryMix::VMA => 900_000_000,
            BinaryMix::VMG => 206_000_000,
            BinaryMix::VNA => 231_000_000,
            BinaryMix::AEG => 600_000_000,
            BinaryMix::AKF => 1_000_000_000,
            BinaryMix::AL => 600_000_000,
            BinaryMix::AN => 600_000_000,
            BinaryMix::APG => 600_000_000,
            BinaryMix::GKN => 600_000_000,
            BinaryMix::PK2 => 1_000_000_000,
            BinaryMix::PKL => 600_000_000,
            BinaryMix::ZAC => 500_000_000,
            BinaryMix::ZFC => 600_000_000,
            BinaryMix::ZLC => 700_000_000,
            BinaryMix::ZM => 1_000_000_000,
            BinaryMix::ZMC => 700_000_000,
        }
    }

    /// Canonical symbolic name, as a mathematical character sequence.
    pub open spec fn name_spec(self) -> Seq<char> {
        match self {
            BinaryMix::FRE => "FRE"@,
            BinaryMix::IceEA => "IceEA"@,
            BinaryMix::IceNA => "IceNA"@,
            BinaryMix::IcePG => "IcePG"@,
            BinaryMix::LiBr => "LiBr"@,
            BinaryMix::MAM => "MAM"@,
            BinaryMix::MAM2 => "MAM2"@,
            BinaryMix::MCA => "MCA"@,
            BinaryMix::MCA2 => "MCA2"@,
            BinaryMix::MEA => "MEA"@,
            BinaryMix::MEA2 => "MEA2"@,
            BinaryMix::MEG => "MEG"@,
            BinaryMix::MEG2 => "MEG2"@,
            BinaryMix::MGL => "MGL"@,
            BinaryMix::MGL2 => "MGL2"@,
            BinaryMix::MITSW => "MITSW"@,
            BinaryMix::MKA => "MKA"@,
            BinaryMix::MKA2 => "MKA2"@,
            BinaryMix::MKC => "MKC"@,
            BinaryMix::MKC2 => "MKC2"@,
            BinaryMix::MKF => "MKF"@,
            BinaryMix::MLI => "MLI"@,
            BinaryMix::MMA => "MMA"@,
            BinaryMix::MMA2 => "MMA2"@,
            BinaryMix::MMG => "MMG"@,
            BinaryMix::MMG2 => "MMG2"@,
            BinaryMix::MNA => "MNA"@,
            BinaryMix::MNA2 => "MNA2"@,
            BinaryMix::MPG => "MPG"@,
            BinaryMix::MPG2 => "MPG2"@,
            BinaryMix::VCA => "VCA"@,
            BinaryMix::VKC => "VKC"@,
            BinaryMix::VMA => "VMA"@,
            BinaryMix::VMG => "VMG"@,
            BinaryMix::VNA => "VNA"@,
            BinaryMix::AEG => "AEG"@,
            BinaryMix::AKF => "AKF"@,
            BinaryMix::AL => "AL"@,
            BinaryMix::AN => "AN"@,
            BinaryMix::APG => "APG"@,
            BinaryMix::GKN => "GKN"@,
            BinaryMix::PK2 => "PK2"@,
            BinaryMix::PKL => "PKL"@,
            BinaryMix::ZAC => "ZAC"@,
            BinaryMix::ZFC => "ZFC"@,
            BinaryMix::ZLC => "ZLC"@,
            BinaryMix::ZM => "ZM"@,
            BinaryMix::ZMC => "ZMC"@,
        }
    }

    /// Canonical symbolic name.
    pub fn as_ref(&self) -> (r: &'static str)
        ensures
            r@ == self.name_spec(),
    {
        match self {
            BinaryMix::FRE => "FRE",
            BinaryMix::IceEA => "IceEA",
            BinaryMix::IceNA => "IceNA",
            BinaryMix::IcePG => "IcePG",
            BinaryMix::LiBr => "LiBr",
            BinaryMix::MAM => "MAM",
            BinaryMix::MAM2 => "MAM2",
            BinaryMix::MCA => "MCA",
            BinaryMix::MCA2 => "MCA2",
            BinaryMix::MEA => "MEA",
            BinaryMix::MEA2 => "MEA2",
            BinaryMix::MEG => "MEG",
            BinaryMix::MEG2 => "MEG2",
            BinaryMix::MGL => "MGL",
            BinaryMix::MGL2 => "MGL2",
            BinaryMix::MITSW => "MITSW",
            BinaryMix::MKA => "MKA",
            BinaryMix::MKA2 => "MKA2",
            BinaryMix::MKC => "MKC",
            BinaryMix::MKC2 => "MKC2",
            BinaryMix::MKF => "MKF",
            BinaryMix::MLI => "MLI",
            BinaryMix::MMA => "MMA",
            BinaryMix::MMA2 => "MMA2",
            BinaryMix::MMG => "MMG",
            BinaryMix::MMG2 => "MMG2",
            BinaryMix::MNA => "MNA",
            BinaryMix::MNA2 => "MNA2",
            BinaryMix::MPG => "MPG",
            BinaryMix::MPG2 => "MPG2",
            BinaryMix::VCA => "VCA",
            BinaryMix::VKC => "VKC",
            BinaryMix::VMA => "VMA",
            BinaryMix::VMG => "VMG",
            BinaryMix::VNA => "VNA",
            BinaryMix::AEG => "AEG",
            BinaryMix::AKF => "AKF",
            BinaryMix::AL => "AL",
            BinaryMix::AN => "AN",
            BinaryMix::APG => "APG",
            BinaryMix::GKN => "GKN",
            BinaryMix::PK2 => "PK2",
            BinaryMix::PKL => "PKL",
            BinaryMix::ZAC => "ZAC",
            BinaryMix::ZFC => "ZFC",
            BinaryMix::ZLC => "ZLC",
            BinaryMix::ZM => "ZM",
            BinaryMix::ZMC => "ZMC",
        }
    }

    /// All binary mixture kinds, each exactly once.
    pub fn all() -> (r: Vec<BinaryMix>)
        ensures
            r@.len() == 48,
            forall|i: int, j: int| 0 <= i < j < r@.len() ==> r@[i] != r@[j],
    {
        let mut v: Vec<BinaryMix> = Vec::new();
        v.push(BinaryMix::FRE);
        v.push(BinaryMix::IceEA);
        v.push(BinaryMix::IceNA);
        v.push(BinaryMix::IcePG);
        v.push(BinaryMix::LiBr);
        v.push(BinaryMix::MAM);
        v.push(BinaryMix::MAM2);
        v.push(BinaryMix::MCA);
        v.push(BinaryMix::MCA2);
        v.push(BinaryMix::MEA);
        v.push(BinaryMix::MEA2);
        v.push(BinaryMix::MEG);
        v.push(BinaryMix::MEG2);
        v.push(BinaryMix::MGL);
        v.push(BinaryMix::MGL2);
        v.push(BinaryMix::MITSW);
        v.push(BinaryMix::MKA);
        v.push(BinaryMix::MKA2);
        v.push(BinaryMix::MKC);
        v.push(BinaryMix::MKC2);
        v.push(BinaryMix::MKF);
        v.push(BinaryMix::MLI);
        v.push(BinaryMix::MMA);
        v.push(BinaryMix::MMA2);
        v.push(BinaryMix::MMG);
        v.push(BinaryMix::MMG2);
        v.push(BinaryMix::MNA);
        v.push(BinaryMix::MNA2);
        v.push(BinaryMix::MPG);
        v.push(BinaryMix::MPG2);
        v.push(BinaryMix::VCA);
        v.push(BinaryMix::VKC);
        v.push(BinaryMix::VMA);
        v.push(BinaryMix::VMG);
        v.push(BinaryMix::VNA);
        v.push(BinaryMix::AEG);
        v.push(BinaryMix::AKF);
        v.push(BinaryMix::AL);
        v.push(BinaryMix::AN);
        v.push(BinaryMix::APG);
        v.push(BinaryMix::GKN);
        v.push(BinaryMix::PK2);
        v.push(BinaryMix::PKL);
        v.push(BinaryMix::ZAC);
        v.push(BinaryMix::ZFC);
        v.push(BinaryMix::ZLC);
        v.push(BinaryMix::ZM);
        v.push(BinaryMix::ZMC);
        proof {
            assert(v@ =~= seq![
                BinaryMix::FRE,
                BinaryMix::IceEA,
                BinaryMix::IceNA,
                BinaryMix::IcePG,
                BinaryMix::LiBr,
                BinaryMix::MAM,
                BinaryMix::MAM2,
                BinaryMix::MCA,
                BinaryMix::MCA2,
                BinaryMix::MEA,
                BinaryMix::MEA2,
                BinaryMix::MEG,
                BinaryMix::MEG2,
                BinaryMix::MGL,
                BinaryMix::MGL2,
                BinaryMix::MITSW,
                BinaryMix::MKA,
                BinaryMix::MKA2,
                BinaryMix::MKC,
                BinaryMix::MKC2,
                BinaryMix::MKF,
                BinaryMix::MLI,
                BinaryMix::MMA,
                BinaryMix::MMA2,
                BinaryMix::MMG,
                BinaryMix::MMG2,
                BinaryMix::MNA,
                BinaryMix::MNA2,
                BinaryMix::MPG,
                BinaryMix::MPG2,
                BinaryMix::VCA,
                BinaryMix::VKC,
                BinaryMix::VMA,
                BinaryMix::VMG,
                BinaryMix::VNA,
                BinaryMix::AEG,
                BinaryMix::AKF,
                BinaryMix::AL,
                BinaryMix::AN,
                BinaryMix::APG,
                BinaryMix::GKN,
                BinaryMix::PK2,
                BinaryMix::PKL,
                BinaryMix::ZAC,
                BinaryMix::ZFC,
                BinaryMix::ZLC,
                BinaryMix::ZM,
                BinaryMix::ZMC
            ]);
        }
        v
    }
}

/// The bounds of every binary mixture kind are ordered: the minimum
/// fraction never exceeds the maximum fraction, and both lie within
/// the closed unit interval.
pub proof fn lemma_binary_mix_bounds_ordered(kind: BinaryMix)
    ensures
        0 <= kind.min_fraction_spec() <= kind.max_fraction_spec() <= 1_000_000_000,
{
}

impl BackendName for BinaryMix {
    open spec fn backend_name_spec(&self) -> Seq<char> {
        "INCOMP"@
    }

    fn backend_name(&self) -> (r: &'static str)
        ensures
            r@ == self.backend_name_spec(),
    {
        "INCOMP"
    }
}

/// A binary mixture kind paired with a concrete fraction, validated
/// at construction against the kind's static bounds and immutable
/// afterwards.
#[derive(Debug, Copy, Clone, Eq, PartialEq, Structural)]
pub struct BinaryMixture {
    kind: BinaryMix,
    fraction: i64,
}

impl BinaryMixture {
    /// The mixture kind.
    pub closed spec fn kind_spec(self) -> BinaryMix {
        self.kind
    }

    /// The fraction of the mixture, in nano units.
    pub closed spec fn fraction_spec(self) -> i64 {
        self.fraction
    }

    /// Whether the fraction lies within the kind's static bounds.
    pub open spec fn wf(self) -> bool {
        self.kind_spec().min_fraction_spec() <= self.fraction_spec() <= self.kind_spec().max_fraction_spec()
    }

    /// Pair a mixture kind with a fraction.  Succeeds exactly when
    /// the fraction lies within the kind's static bounds, and fails
    /// with the range error otherwise.
    pub fn try_new(kind: BinaryMix, fraction: i64) -> (r: Result<BinaryMixture, BinaryMixError>)
        ensures
            match r {
                Ok(m) => {
                    &&& kind.min_fraction_spec() <= fraction <= kind.max_fraction_spec()
                    &&& m.kind_spec() == kind
                    &&& m.fraction_spec() == fraction
                    &&& m.wf()
                },
                Err(e) => {
                    &&& !(kind.min_fraction_spec() <= fraction <= kind.max_fraction_spec())
                    &&& e == BinaryMixError::InvalidFraction
                },
            },
    {
        if fraction < kind.min_fraction() || fraction > kind.max_fraction() {
            Err(BinaryMixError::InvalidFraction)
        } else {
            Ok(BinaryMixture { kind, fraction })
        }
    }

    /// The mixture kind.
    pub fn kind(&self) -> (r: BinaryMix)
        ensures
            r == self.kind_spec(),
    {
        self.kind
    }

    /// The fraction of the mixture, in nano units.
    pub fn fraction(&self) -> (r: i64)
        ensures
            r == self.fraction_spec(),
    {
        self.fraction
    }
}

impl BackendName for BinaryMixture {
    open spec fn backend_name_spec(&self) -> Seq<char> {
        "INCOMP"@
    }

    fn backend_name(&self) -> (r: &'static str)
        ensures
            r@ == self.backend_name_spec(),
    {
        "INCOMP"
    }
}

} // verus!
