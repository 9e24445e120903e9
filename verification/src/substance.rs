//! Substance identities: the closed sets of pure fluids,
//! incompressible fluids, refrigerants and predefined mixtures that
//! the backend knows how to evaluate, together with the backend
//! family each of them belongs to.

use vstd::prelude::*;

pub use crate::binary_mix::BinaryMix;
pub use crate::binary_mix::BinaryMixture;
pub use crate::custom_mix::CustomMix;
pub use crate::custom_mix::CustomMixComponent;

verus! {

/// Backend family identifier of a substance: the string token that
/// groups substances sharing an evaluation strategy.
pub trait BackendName {
    /// The backend family token, as a mathematical character sequence.
    spec fn backend_name_spec(&self) -> Seq<char>;

    /// The backend family token.
    fn backend_name(&self) -> (r: &'static str)
        ensures
            r@ == self.backend_name_spec(),
    ;
}

/// Category of a refrigerant: a single compound, or a predefined
/// blend of several compounds.
#[derive(Debug, Copy, Clone, PartialEq, Eq, Structural)]
pub enum RefrigerantCategory {
    /// A single-compound refrigerant.
    Pure,
    /// A zeotropic blend (components with different boiling points).
    ZeotropicBlend,
    /// An azeotropic blend (components that evaporate together).
    AzeotropicBlend,
}

/// Pure or pseudo-pure substances.
#[derive(Debug, Copy, Clone, PartialEq, Eq, Structural)]
pub enum Pure {
    /// Water.
    Water,
    /// Ethanol.
    Ethanol,
    /// Methanol.
    Methanol,
    /// Acetone.
    Acetone,
    /// Ammonia.
    Ammonia,
    /// Carbon dioxide.
    CarbonDioxide,
}

impl Pure {
    /// Canonical symbolic name, as a mathematical character sequence.
    pub open spec fn name_spec(self) -> Seq<char> {
        match self {
            Pure::Water => "Water"@,
            Pure::Ethanol => "Ethanol"@,
            Pure::Methanol => "Methanol"@,
            Pure::Acetone => "Acetone"@,
            Pure::Ammonia => "Ammonia"@,
            Pure::CarbonDioxide => "CarbonDioxide"@,
        }
    }

    /// Canonical symbolic name.
    pub fn as_ref(&self) -> (r: &'static str)
        ensures
            r@ == self.name_spec(),
    {
        match self {
            Pure::Water => "Water",
            Pure::Ethanol => "Ethanol",
            Pure::Methanol => "Methanol",
            Pure::Acetone => "Acetone",
            Pure::Ammonia => "Ammonia",
            Pure::CarbonDioxide => "CarbonDioxide",
        }
    }

    /// All pure substances, each exactly once.
    pub fn all() -> (r: Vec<Pure>)
        ensures
            r@ == seq![
                Pure::Water,
                Pure::Ethanol,
                Pure::Methanol,
                Pure::Acetone,
                Pure::Ammonia,
                Pure::CarbonDioxide,
            ],
    {
        let mut v: Vec<Pure> = Vec::new();
        v.push(Pure::Water);
        v.push(Pure::Ethanol);
        v.push(Pure::Methanol);
        v.push(Pure::Acetone);
        v.push(Pure::Ammonia);
        v.push(Pure::CarbonDioxide);
        proof {
            assert(v@ =~= seq![
                Pure::Water,
                Pure::Ethanol,
                Pure::Methanol,
                Pure::Acetone,
                Pure::Ammonia,
                Pure::CarbonDioxide,
            ]);
        }
        v
    }
}

impl BackendName for Pure {
    open spec fn backend_name_spec(&self) -> Seq<char> {
        "HEOS"@
    }

    fn backend_name(&self) -> (r: &'static str)
        ensures
            r@ == self.backend_name_spec(),
    {
        "HEOS"
    }
}

/// Incompressible pure substances.
#[derive(Debug, Copy, Clone, PartialEq, Eq, Structural)]
pub enum IncompPure {
    /// Water as an incompressible fluid.
    Water,
    /// Diethylbenzene.
    DEB,
    /// Hydrocarbon blend.
    HC50,
    /// Citrus oil terpene.
    TCO,
}

impl IncompPure {
    /// Canonical symbolic name, as a mathematical character sequence.
    pub open spec fn name_spec(self) -> Seq<char> {
        match self {
            IncompPure::Water => "Water"@,
            IncompPure::DEB => "DEB"@,
            IncompPure::HC50 => "HC50"@,
            IncompPure::TCO => "TCO"@,
        }
    }

    /// Canonical symbolic name.
    pub fn as_ref(&self) -> (r: &'static str)
        ensures
            r@ == self.name_spec(),
    {
        match self {
            IncompPure::Water => "Water",
            IncompPure::DEB => "DEB",
            IncompPure::HC50 => "HC50",
            IncompPure::TCO => "TCO",
        }
    }

    /// All incompressible pure substances, each exactly once.
    pub fn all() -> (r: Vec<IncompPure>)
        ensures
            r@ == seq![IncompPure::Water, IncompPure::DEB, IncompPure::HC50, IncompPure::TCO],
    {
        let mut v: Vec<IncompPure> = Vec::new();
        v.push(IncompPure::Water);
        v.push(IncompPure::DEB);
        v.push(IncompPure::HC50);
        v.push(IncompPure::TCO);
        proof {
            assert(v@ =~= seq![
                IncompPure::Water,
                IncompPure::DEB,
                IncompPure::HC50,
                IncompPure::TCO,
            ]);
        }
        v
    }
}

impl BackendName for IncompPure {
    open spec fn backend_name_spec(&self) -> Seq<char> {
        "INCOMP"@
    }

    fn backend_name(&self) -> (r: &'static str)
        ensures
            r@ == self.backend_name_spec(),
    {
        "INCOMP"
    }
}

/// Refrigerants.
#[derive(Debug, Copy, Clone, PartialEq, Eq, Structural)]
pub enum Refrigerant {
    /// R32 (difluoromethane).
    R32,
    /// R125 (pentafluoroethane).
    R125,
    /// R134a (1,1,1,2-tetrafluoroethane).
    R134a,
    /// R404A (blend of R125, R143a and R134a).
    R404A,
    /// R407C (blend of R32, R125 and R134a).
    R407C,
    /// R507A (blend of R125 and R143a).
    R507A,
}

impl Refrigerant {
    /// Category of the refrigerant.
    pub open spec fn category_spec(self) -> RefrigerantCategory {
        match self {
            Refrigerant::R32 => RefrigerantCategory::Pure,
            Refrigerant::R125 => RefrigerantCategory::Pure,
            Refrigerant::R134a => RefrigerantCategory::Pure,
            Refrigerant::R404A => RefrigerantCategory::ZeotropicBlend,
            Refrigerant::R407C => RefrigerantCategory::ZeotropicBlend,
            Refrigerant::R507A => RefrigerantCategory::AzeotropicBlend,
        }
    }

    /// Category of the refrigerant: single compound or predefined blend.
    pub fn category(&self) -> (c: RefrigerantCategory)
        ensures
            c == self.category_spec(),
    {
        match self {
            Refrigerant::R32 => RefrigerantCategory::Pure,
            Refrigerant::R125 => RefrigerantCategory::Pure,
            Refrigerant::R134a => RefrigerantCategory::Pure,
            Refrigerant::R404A => RefrigerantCategory::ZeotropicBlend,
            Refrigerant::R407C => RefrigerantCategory::ZeotropicBlend,
            Refrigerant::R507A => RefrigerantCategory::AzeotropicBlend,
        }
    }

    /// Canonical symbolic name, as a mathematical character sequence.
    pub open spec fn name_spec(self) -> Seq<char> {
        match self {
            Refrigerant::R32 => "R32"@,
            Refrigerant::R125 => "R125"@,
            Refrigerant::R134a => "R134a"@,
            Refrigerant::R404A => "R404A"@,
            Refrigerant::R407C => "R407C"@,
            Refrigerant::R507A => "R507A"@,
        }
    }

    /// Canonical symbolic name.
    pub fn as_ref(&self) -> (r: &'static str)
        ensures
            r@ == self.name_spec(),
    {
        match self {
            Refrigerant::R32 => "R32",
            Refrigerant::R125 => "R125",
            Refrigerant::R134a => "R134a",
            Refrigerant::R404A => "R404A",
            Refrigerant::R407C => "R407C",
            Refrigerant::R507A => "R507A",
        }
    }

    /// All refrigerants, each exactly once.
    pub fn all() -> (r: Vec<Refrigerant>)
        ensures
            r@ == seq![
                Refrigerant::R32,
                Refrigerant::R125,
                Refrigerant::R134a,
                Refrigerant::R404A,
                Refrigerant::R407C,
                Refrigerant::R507A,
            ],
    {
        let mut v: Vec<Refrigerant> = Vec::new();
        v.push(Refrigerant::R32);
        v.push(Refrigerant::R125);
        v.push(Refrigerant::R134a);
        v.push(Refrigerant::R404A);
        v.push(Refrigerant::R407C);
        v.push(Refrigerant::R507A);
        proof {
            assert(v@ =~= seq![
                Refrigerant::R32,
                Refrigerant::R125,
                Refrigerant::R134a,
                Refrigerant::R404A,
                Refrigerant::R407C,
                Refrigerant::R507A,
            ]);
        }
        v
    }
}

impl BackendName for Refrigerant {
    open spec fn backend_name_spec(&self) -> Seq<char> {
        "HEOS"@
    }

    fn backend_name(&self) -> (r: &'static str)
        ensures
            r@ == self.backend_name_spec(),
    {
        "HEOS"
    }
}

/// Predefined mixtures with fixed, backend-known compositions.
#[derive(Debug, Copy, Clone, PartialEq, Eq, Structural)]
pub enum PredefinedMix {
    /// Dry air.
    Air,
    /// Typical natural gas.
    TypicalNaturalGas,
}

impl PredefinedMix {
    /// Canonical symbolic name, as a mathematical character sequence.
    pub open spec fn name_spec(self) -> Seq<char> {
        match self {
            PredefinedMix::Air => "Air"@,
            PredefinedMix::TypicalNaturalGas => "TypicalNaturalGas"@,
        }
    }

    /// Canonical symbolic name.
    pub fn as_ref(&self) -> (r: &'static str)
        ensures
            r@ == self.name_spec(),
    {
        match self {
            PredefinedMix::Air => "Air",
            PredefinedMix::TypicalNaturalGas => "TypicalNaturalGas",
        }
    }

    /// All predefined mixtures, each exactly once.
    pub fn all() -> (r: Vec<PredefinedMix>)
        ensures
            r@ == seq![PredefinedMix::Air, PredefinedMix::TypicalNaturalGas],
    {
        let mut v: Vec<PredefinedMix> = Vec::new();
        v.push(PredefinedMix::Air);
        v.push(PredefinedMix::TypicalNaturalGas);
        proof {
            assert(v@ =~= seq![PredefinedMix::Air, PredefinedMix::TypicalNaturalGas]);
        }
        v
    }
}

impl BackendName for PredefinedMix {
    open spec fn backend_name_spec(&self) -> Seq<char> {
        "HEOS"@
    }

    fn backend_name(&self) -> (r: &'static str)
        ensures
            r@ == self.backend_name_spec(),
    {
        "HEOS"
    }
}

/// Substance identity: the closed, tagged set of everything a fluid
/// handle can be created over.  It is immutable once constructed and
/// is the sole owner of its composition data.
#[derive(Debug, Clone, PartialEq)]
pub enum Substance {
    /// Pure or pseudo-pure substance.
    Pure(Pure),
    /// Incompressible pure substance.
    IncompPure(IncompPure),
    /// Refrigerant.
    Refrigerant(Refrigerant),
    /// Predefined mixture.
    PredefinedMix(PredefinedMix),
    /// Incompressible binary mixture with its fraction.
    BinaryMix(BinaryMixture),
    /// Custom mixture with its composition.
    CustomMix(CustomMix),
}

impl Substance {
    /// The composition's fraction vector: the single fraction of a
    /// binary mixture, every component fraction of a custom mixture
    /// in component order, and empty for a substance without a
    /// composition of its own.
    pub open spec fn fraction_values_spec(self) -> Seq<i64> {
        match self {
            Substance::BinaryMix(m) => seq![m.fraction_spec()],
            Substance::CustomMix(m) => crate::custom_mix::fractions_of(m.components_seq()),
            _ => Seq::empty(),
        }
    }

    /// The composition's fraction vector.
    pub fn fraction_values(&self) -> (r: Vec<i64>)
        ensures
            r@ == self.fraction_values_spec(),
    {
        match self {
            Substance::BinaryMix(m) => {
                let mut values: Vec<i64> = Vec::new();
                values.push(m.fraction());
                proof {
                    assert(values@ =~= seq![m.fraction_spec()]);
                }
                values
            },
            Substance::CustomMix(m) => m.fraction_values(),
            _ => {
                let values: Vec<i64> = Vec::new();
                proof {
                    assert(values@ =~= Seq::<i64>::empty());
                }
                values
            },
        }
    }

    /// The descriptor under which a backend identifies the
    /// substance: its canonical name, the kind name for a binary
    /// mixture, and the component names joined with `&` for a
    /// custom mixture.
    pub open spec fn backend_descriptor_spec(self) -> Seq<char> {
        match self {
            Substance::Pure(s) => s.name_spec(),
            Substance::IncompPure(s) => s.name_spec(),
            Substance::Refrigerant(s) => s.name_spec(),
            Substance::PredefinedMix(s) => s.name_spec(),
            Substance::BinaryMix(m) => m.kind_spec().name_spec(),
            Substance::CustomMix(m) => crate::custom_mix::joined_names(m.components_seq()),
        }
    }

    /// The descriptor under which a backend identifies the
    /// substance.
    pub fn backend_descriptor(&self) -> (r: String)
        ensures
            r@ == self.backend_descriptor_spec(),
    {
        match self {
            Substance::Pure(s) => String::from_str(s.as_ref()),
            Substance::IncompPure(s) => String::from_str(s.as_ref()),
            Substance::Refrigerant(s) => String::from_str(s.as_ref()),
            Substance::PredefinedMix(s) => String::from_str(s.as_ref()),
            Substance::BinaryMix(m) => String::from_str(m.kind().as_ref()),
            Substance::CustomMix(m) => crate::custom_mix::join_component_names(m.components()),
        }
    }
}

impl BackendName for Substance {
    open spec fn backend_name_spec(&self) -> Seq<char> {
        match *self {
            Substance::Pure(s) => s.backend_name_spec(),
            Substance::IncompPure(s) => s.backend_name_spec(),
            Substance::Refrigerant(s) => s.backend_name_spec(),
            Substance::PredefinedMix(s) => s.backend_name_spec(),
            Substance::BinaryMix(s) => s.backend_name_spec(),
            Substance::CustomMix(s) => s.backend_name_spec(),
        }
    }

    fn backend_name(&self) -> (r: &'static str)
        ensures
            r@ == self.backend_name_spec(),
    {
        match self {
            Substance::Pure(s) => s.backend_name(),
            Substance::IncompPure(s) => s.backend_name(),
            Substance::Refrigerant(s) => s.backend_name(),
            Substance::PredefinedMix(s) => s.backend_name(),
            Substance::BinaryMix(s) => s.backend_name(),
            Substance::CustomMix(s) => s.backend_name(),
        }
    }
}

impl From<Pure> for Substance {
    fn from(value: Pure) -> (r: Self)
        ensures
            r == Substance::Pure(value),
    {
        Substance::Pure(value)
    }
}

impl vstd::std_specs::convert::FromSpecImpl<Pure> for Substance {
    open spec fn obeys_from_spec() -> bool {
        true
    }

    open spec fn from_spec(value: Pure) -> Self {
        Substance::Pure(value)
    }
}

impl From<IncompPure> for Substance {
    fn from(value: IncompPure) -> (r: Self)
        ensures
            r == Substance::IncompPure(value),
    {
        Substance::IncompPure(value)
    }
}

impl vstd::std_specs::convert::FromSpecImpl<IncompPure> for Substance {
    open spec fn obeys_from_spec() -> bool {
        true
    }

    open spec fn from_spec(value: IncompPure) -> Self {
        Substance::IncompPure(value)
    }
}

impl From<Refrigerant> for Substance {
    fn from(value: Refrigerant) -> (r: Self)
        ensures
            r == Substance::Refrigerant(value),
    {
        Substance::Refrigerant(value)
    }
}

impl vstd::std_specs::convert::FromSpecImpl<Refrigerant> for Substance {
    open spec fn obeys_from_spec() -> bool {
        true
    }

    open spec fn from_spec(value: Refrigerant) -> Self {
        Substance::Refrigerant(value)
    }
}

impl From<PredefinedMix> for Substance {
    fn from(value: PredefinedMix) -> (r: Self)
        ensures
            r == Substance::PredefinedMix(value),
    {
        Substance::PredefinedMix(value)
    }
}

impl vstd::std_specs::convert::FromSpecImpl<PredefinedMix> for Substance {
    open spec fn obeys_from_spec() -> bool {
        true
    }

    open spec fn from_spec(value: PredefinedMix) -> Self {
        Substance::PredefinedMix(value)
    }
}

impl From<BinaryMixture> for Substance {
    fn from(value: BinaryMixture) -> (r: Self)
        ensures
            r == Substance::BinaryMix(value),
    {
        Substance::BinaryMix(value)
    }
}

impl vstd::std_specs::convert::FromSpecImpl<BinaryMixture> for Substance {
    open spec fn obeys_from_spec() -> bool {
        true
    }

    open spec fn from_spec(value: BinaryMixture) -> Self {
        Substance::BinaryMix(value)
    }
}

impl From<CustomMix> for Substance {
    fn from(value: CustomMix) -> (r: Self)
        ensures
            r == Substance::CustomMix(value),
    {
        Substance::CustomMix(value)
    }
}

impl vstd::std_specs::convert::FromSpecImpl<CustomMix> for Substance {
    open spec fn obeys_from_spec() -> bool {
        true
    }

    open spec fn from_spec(value: CustomMix) -> Self {
        Substance::CustomMix(value)
    }
}

} // verus!
