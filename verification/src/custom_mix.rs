//! Custom mixtures: a validated set of components (pure substances
//! or single-compound refrigerants) with their fractions, tagged as
//! mole-based or mass-based.
//!
//! Fractions are fixed-point ratios in nano units: a fraction of one
//! is `1_000_000_000`.  Validation runs once, at construction, and a
//! mixture is immutable afterwards; converting a mass-based mixture
//! to a mole-based one produces a new value and never mutates the
//! source.

use vstd::prelude::*;

use crate::error::CustomMixError;
use crate::substance::{BackendName, Pure, Refrigerant, RefrigerantCategory};

verus! {

/// A fixed-point ratio equal to one.
pub const RATIO_ONE: i64 = 1_000_000_000;

/// Tolerance on the fractions sum: one millionth of one.
pub const SUM_TOLERANCE: i64 = 1_000;

/// Component of a custom mixture: a pure substance or a
/// single-compound refrigerant.
#[derive(Debug, Copy, Clone, Eq, PartialEq, Structural)]
pub enum CustomMixComponent {
    /// Pure substance.
    Pure(Pure),
    /// Pure refrigerant.
    Refrigerant(Refrigerant),
}

impl CustomMixComponent {
    /// Molar mass of the component in nano kilograms per mole.
    pub open spec fn molar_mass_spec(self) -> i64 {
        match self {
            CustomMixComponent::Pure(p) => match p {
                Pure::Water => 18_015_268,
                Pure::Ethanol => 46_068_440,
                Pure::Methanol => 32_042_160,
                Pure::Acetone => 58_079_140,
                Pure::Ammonia => 17_030_260,
                Pure::CarbonDioxide => 44_009_800,
            },
            CustomMixComponent::Refrigerant(r) => match r {
                Refrigerant::R32 => 52_024_000,
                Refrigerant::R125 => 120_021_400,
                Refrigerant::R134a => 102_032_000,
                Refrigerant::R404A => 97_603_800,
                Refrigerant::R407C => 86_203_600,
                Refrigerant::R507A => 98_858_600,
            },
        }
    }

    /// Molar mass of the component in nano kilograms per mole: the
    /// composition-independent property a mass-to-mole conversion
    /// divides by.  Always strictly between a gram and a kilogram
    /// per mole.
    pub fn molar_mass(&self) -> (r: i64)
        ensures
            r == self.molar_mass_spec(),
            1_000_000 <= r < 1_000_000_000,
    {
        match self {
            CustomMixComponent::Pure(p) => match p {
                Pure::Water => 18_015_268,
                Pure::Ethanol => 46_068_440,
                Pure::Methanol => 32_042_160,
                Pure::Acetone => 58_079_140,
                Pure::Ammonia => 17_030_260,
                Pure::CarbonDioxide => 44_009_800,
            },
            CustomMixComponent::Refrigerant(r) => match r {
                Refrigerant::R32 => 52_024_000,
                Refrigerant::R125 => 120_021_400,
                Refrigerant::R134a => 102_032_000,
                Refrigerant::R404A => 97_603_800,
                Refrigerant::R407C => 86_203_600,
                Refrigerant::R507A => 98_858_600,
            },
        }
    }

    /// Whether the component may enter a custom mixture: every pure
    /// substance may, and a refrigerant only if it is a single
    /// compound rather than a predefined blend.
    pub open spec fn is_valid_spec(self) -> bool {
        match self {
            CustomMixComponent::Pure(_) => true,
            CustomMixComponent::Refrigerant(r) => r.category_spec() == RefrigerantCategory::Pure,
        }
    }

    /// Canonical symbolic name, as a mathematical character sequence.
    pub open spec fn name_spec(self) -> Seq<char> {
        match self {
            CustomMixComponent::Pure(p) => p.name_spec(),
            CustomMixComponent::Refrigerant(r) => r.name_spec(),
        }
    }

    /// Canonical symbolic name of the underlying substance.
    pub fn as_ref(&self) -> (r: &'static str)
        ensures
            r@ == self.name_spec(),
    {
        match self {
            CustomMixComponent::Pure(p) => p.as_ref(),
            CustomMixComponent::Refrigerant(r) => r.as_ref(),
        }
    }
}

impl BackendName for CustomMixComponent {
    open spec fn backend_name_spec(&self) -> Seq<char> {
        match *self {
            CustomMixComponent::Pure(p) => p.backend_name_spec(),
            CustomMixComponent::Refrigerant(r) => r.backend_name_spec(),
        }
    }

    fn backend_name(&self) -> (r: &'static str)
        ensures
            r@ == self.backend_name_spec(),
    {
        match self {
            CustomMixComponent::Pure(p) => p.backend_name(),
            CustomMixComponent::Refrigerant(r) => r.backend_name(),
        }
    }
}

impl From<Pure> for CustomMixComponent {
    fn from(value: Pure) -> (r: Self)
        ensures
            r == CustomMixComponent::Pure(value),
    {
        CustomMixComponent::Pure(value)
    }
}

impl vstd::std_specs::convert::FromSpecImpl<Pure> for CustomMixComponent {
    open spec fn obeys_from_spec() -> bool {
        true
    }

    open spec fn from_spec(value: Pure) -> Self {
        CustomMixComponent::Pure(value)
    }
}

impl From<Refrigerant> for CustomMixComponent {
    fn from(value: Refrigerant) -> (r: Self)
        ensures
            r == CustomMixComponent::Refrigerant(value),
    {
        CustomMixComponent::Refrigerant(value)
    }
}

impl vstd::std_specs::convert::FromSpecImpl<Refrigerant> for CustomMixComponent {
    open spec fn obeys_from_spec() -> bool {
        true
    }

    open spec fn from_spec(value: Refrigerant) -> Self {
        CustomMixComponent::Refrigerant(value)
    }
}

/// Custom mixture: distinct components with their fractions, tagged
/// by the basis the fractions are expressed in.
#[derive(Debug, Clone, PartialEq)]
pub enum CustomMix {
    /// Mole-based mixture (with mole fractions).
    #[non_exhaustive]
    MoleBased(Vec<(CustomMixComponent, i64)>),

    /// Mass-based mixture (with mass fractions).
    #[non_exhaustive]
    MassBased(Vec<(CustomMixComponent, i64)>),
}

impl CustomMix {
    /// The components and fractions of the mixture, as a sequence.
    pub open spec fn components_seq(self) -> Seq<(CustomMixComponent, i64)> {
        match self {
            CustomMix::MoleBased(c) => c@,
            CustomMix::MassBased(c) => c@,
        }
    }

    /// Whether the fractions are mole-based.
    pub open spec fn is_mole_based_spec(self) -> bool {
        self is MoleBased
    }

    /// Specified components and their fractions.
    pub fn components(&self) -> (r: &Vec<(CustomMixComponent, i64)>)
        ensures
            r@ == self.components_seq(),
    {
        match self {
            CustomMix::MoleBased(components) => components,
            CustomMix::MassBased(components) => components,
        }
    }

    /// Whether the fractions are mole-based.
    pub fn is_mole_based(&self) -> (r: bool)
        ensures
            r == self.is_mole_based_spec(),
    {
        match self {
            CustomMix::MoleBased(_) => true,
            CustomMix::MassBased(_) => false,
        }
    }

    /// The fraction of every component, in component order: the
    /// vector a backend's composition setter expects.
    pub fn fraction_values(&self) -> (r: Vec<i64>)
        ensures
            r@ == fractions_of(self.components_seq()),
    {
        let components = self.components();
        let n = components.len();
        let mut values: Vec<i64> = Vec::new();
        let mut i: usize = 0;
        while i < n
            invariant
                n == components@.len(),
                i <= n,
                values@.len() == i,
                forall|k: int| 0 <= k < i ==> values@[k] == (#[trigger] components@[k]).1,
            decreases n - i,
        {
            values.push(components[i].1);
            i += 1;
        }
        proof {
            assert(values@ =~= fractions_of(components@));
        }
        values
    }
}

/// Index of the first entry of `s` whose component is `c`, or `-1`
/// if no entry has it.
pub open spec fn find_comp(s: Seq<(CustomMixComponent, i64)>, c: CustomMixComponent) -> int
    decreases s.len(),
{
    if s.len() == 0 {
        -1
    } else if s.first().0 == c {
        0
    } else {
        let r = find_comp(s.drop_first(), c);
        if r < 0 {
            -1
        } else {
            r + 1
        }
    }
}

/// `find_comp` returns `-1` exactly when the component is absent,
/// and otherwise the index of its first occurrence.
pub proof fn lemma_find_comp(s: Seq<(CustomMixComponent, i64)>, c: CustomMixComponent)
    ensures
        (find_comp(s, c) == -1) <==> (forall|k: int| 0 <= k < s.len() ==> s[k].0 != c),
        find_comp(s, c) != -1 ==> {
            &&& 0 <= find_comp(s, c) < s.len()
            &&& s[find_comp(s, c)].0 == c
            &&& forall|k: int| 0 <= k < find_comp(s, c) ==> s[k].0 != c
        },
    decreases s.len(),
{
    if s.len() == 0 {
    } else if s.first().0 == c {
    } else {
        lemma_find_comp(s.drop_first(), c);
        assert(forall|k: int| 1 <= k < s.len() ==> s[k] == s.drop_first()[k - 1]);
    }
}

/// The entries of `s` with duplicate components collapsed: each
/// component appears once, at the position of its first occurrence,
/// carrying the fraction of its last occurrence.
pub open spec fn collapse(s: Seq<(CustomMixComponent, i64)>) -> Seq<(CustomMixComponent, i64)>
    decreases s.len(),
{
    if s.len() == 0 {
        Seq::empty()
    } else {
        let acc = collapse(s.drop_last());
        let x = s.last();
        let i = find_comp(acc, x.0);
        if i < 0 {
            acc.push(x)
        } else {
            acc.update(i, x)
        }
    }
}

/// Collapsed sequences hold each component at most once.
pub proof fn lemma_collapse_distinct(s: Seq<(CustomMixComponent, i64)>)
    ensures
        forall|i: int, j: int|
            0 <= i < j < collapse(s).len() ==> collapse(s)[i].0 != collapse(s)[j].0,
    decreases s.len(),
{
    if s.len() > 0 {
        lemma_collapse_distinct(s.drop_last());
        lemma_find_comp(collapse(s.drop_last()), s.last().0);
    }
}

/// Index of the first entry of `v` whose component is `c`.
fn find_index(v: &Vec<(CustomMixComponent, i64)>, c: CustomMixComponent) -> (r: Option<usize>)
    ensures
        match r {
            Some(i) => find_comp(v@, c) == i as int,
            None => find_comp(v@, c) == -1,
        },
{
    let mut i: usize = 0;
    while i < v.len()
        invariant
            i <= v@.len(),
            forall|k: int| 0 <= k < i ==> v@[k].0 != c,
        decreases v@.len() - i,
    {
        if v[i].0 == c {
            proof {
                lemma_find_comp(v@, c);
            }
            return Some(i);
        }
        i += 1;
    }
    proof {
        lemma_find_comp(v@, c);
    }
    None
}

/// Collapse duplicate components of `src`, keeping for each
/// component the fraction of its last occurrence.
fn collapse_components(src: &Vec<(CustomMixComponent, i64)>) -> (out: Vec<
    (CustomMixComponent, i64),
>)
    ensures
        out@ == collapse(src@),
{
    let mut out: Vec<(CustomMixComponent, i64)> = Vec::new();
    let mut j: usize = 0;
    while j < src.len()
        invariant
            j <= src@.len(),
            out@ == collapse(src@.take(j as int)),
        decreases src@.len() - j,
    {
        let x = src[j];
        proof {
            assert(src@.take(j + 1).drop_last() =~= src@.take(j as int));
            assert(src@.take(j + 1).last() == src@[j as int]);
        }
        match find_index(&out, x.0) {
            Some(i) => {
                proof {
                    lemma_find_comp(out@, x.0);
                }
                out[i] = x;
            },
            None => {
                out.push(x);
            },
        }
        j += 1;
    }
    proof {
        assert(src@.take(src@.len() as int) =~= src@);
    }
    out
}

/// The fraction of each entry of `s`, in entry order.
pub open spec fn fractions_of(s: Seq<(CustomMixComponent, i64)>) -> Seq<i64> {
    s.map_values(|e: (CustomMixComponent, i64)| e.1)
}

/// The names of the components of `s`, joined with `&`: the
/// descriptor under which a backend identifies a custom mixture.
pub open spec fn joined_names(s: Seq<(CustomMixComponent, i64)>) -> Seq<char>
    decreases s.len(),
{
    if s.len() == 0 {
        Seq::empty()
    } else if s.len() == 1 {
        s[0].0.name_spec()
    } else {
        joined_names(s.drop_last()) + "&"@ + s.last().0.name_spec()
    }
}

/// Join the names of the given components with `&`.
pub fn join_component_names(components: &Vec<(CustomMixComponent, i64)>) -> (r: String)
    ensures
        r@ == joined_names(components@),
{
    let n = components.len();
    let mut out = String::new();
    let mut i: usize = 0;
    while i < n
        invariant
            n == components@.len(),
            i <= n,
            out@ == joined_names(components@.take(i as int)),
        decreases n - i,
    {
        proof {
            assert(components@.take(i + 1).drop_last() =~= components@.take(i as int));
            assert(components@.take(i + 1).last() == components@[i as int]);
            assert(components@.take(i + 1)[0] == components@[0]);
        }
        if i > 0 {
            out.append("&");
        }
        out.append(components[i].0.as_ref());
        i += 1;
    }
    proof {
        assert(components@.take(n as int) =~= components@);
    }
    out
}

/// Whether every entry's component may enter a custom mixture.
pub open spec fn all_components_valid(s: Seq<(CustomMixComponent, i64)>) -> bool {
    forall|i: int| 0 <= i < s.len() ==> (#[trigger] s[i]).0.is_valid_spec()
}

/// Whether every entry's fraction lies strictly between zero and one.
pub open spec fn all_fractions_valid(s: Seq<(CustomMixComponent, i64)>) -> bool {
    forall|i: int| 0 <= i < s.len() ==> 0 < (#[trigger] s[i]).1 < RATIO_ONE
}

/// Sum of the fractions of `s`.
pub open spec fn fractions_sum(s: Seq<(CustomMixComponent, i64)>) -> int
    decreases s.len(),
{
    if s.len() == 0 {
        0
    } else {
        fractions_sum(s.drop_last()) + s.last().1
    }
}

/// The validation verdict on a (collapsed) component sequence.  The
/// checks run in a fixed order and the first failure wins: too few
/// components, then a disallowed component, then a fraction outside
/// the open unit interval, then a fractions sum farther than the
/// tolerance from one.
pub open spec fn validate_spec(s: Seq<(CustomMixComponent, i64)>) -> Result<(), CustomMixError> {
    if s.len() < 2 {
        Err(CustomMixError::NotEnoughComponents)
    } else if !all_components_valid(s) {
        Err(CustomMixError::InvalidComponent)
    } else if !all_fractions_valid(s) {
        Err(CustomMixError::InvalidFraction)
    } else if !(RATIO_ONE - SUM_TOLERANCE <= fractions_sum(s) <= RATIO_ONE + SUM_TOLERANCE) {
        Err(CustomMixError::InvalidFractionsSum)
    } else {
        Ok(())
    }
}

impl CustomMix {
    /// Run the construction-time checks on a collapsed component
    /// sequence and report the first failure, if any.
    fn validate(components: &Vec<(CustomMixComponent, i64)>) -> (r: Result<(), CustomMixError>)
        ensures
            r == validate_spec(components@),
    {
        let n = components.len();
        if n < 2 {
            return Err(CustomMixError::NotEnoughComponents);
        }
        let mut i: usize = 0;
        while i < n
            invariant
                n == components@.len(),
                2 <= n,
                i <= n,
                forall|k: int| 0 <= k < i ==> (#[trigger] components@[k]).0.is_valid_spec(),
            decreases n - i,
        {
            let invalid = match components[i].0 {
                CustomMixComponent::Refrigerant(rf) => rf.category()
                    != RefrigerantCategory::Pure,
                CustomMixComponent::Pure(_) => false,
            };
            if invalid {
                proof {
                    assert(!(#[trigger] components@[i as int]).0.is_valid_spec());
                }
                return Err(CustomMixError::InvalidComponent);
            }
            i += 1;
        }
        let mut i: usize = 0;
        while i < n
            invariant
                n == components@.len(),
                2 <= n,
                i <= n,
                all_components_valid(components@),
                forall|k: int| 0 <= k < i ==> 0 < (#[trigger] components@[k]).1 < RATIO_ONE,
            decreases n - i,
        {
            let f = components[i].1;
            if f <= 0 || f >= RATIO_ONE {
                proof {
                    assert(!(0 < (#[trigger] components@[i as int]).1 < RATIO_ONE));
                }
                return Err(CustomMixError::InvalidFraction);
            }
            i += 1;
        }
        let mut sum: i128 = 0;
        let mut i: usize = 0;
        while i < n
            invariant
                n == components@.len(),
                2 <= n,
                i <= n,
                all_components_valid(components@),
                all_fractions_valid(components@),
                sum == fractions_sum(components@.take(i as int)),
                0 <= sum <= (i as int) * (RATIO_ONE as int),
            decreases n - i,
        {
            proof {
                assert(components@.take(i + 1).drop_last() =~= components@.take(i as int));
                assert(components@.take(i + 1).last() == components@[i as int]);
            }
            sum = sum + components[i].1 as i128;
            i += 1;
        }
        proof {
            assert(components@.take(n as int) =~= components@);
        }
        if sum < (RATIO_ONE - SUM_TOLERANCE) as i128 || sum > (RATIO_ONE + SUM_TOLERANCE) as i128 {
            return Err(CustomMixError::InvalidFractionsSum);
        }
        Ok(())
    }

    /// Whether the mixture upholds the construction-time invariants:
    /// distinct components, all of them admissible, fractions inside
    /// the open unit interval and summing to one within tolerance.
    pub open spec fn wf(self) -> bool {
        &&& validate_spec(self.components_seq()) == Ok::<(), CustomMixError>(())
        &&& forall|i: int, j: int|
            0 <= i < j < self.components_seq().len()
                ==> (#[trigger] self.components_seq()[i]).0
                != (#[trigger] self.components_seq()[j]).0
    }

    /// Create a mole-based mixture from components and their mole
    /// fractions.  Entries naming the same component collapse to one,
    /// the last fraction winning; the collapsed set is then validated
    /// and the first failing check, if any, is reported.
    pub fn mole_based(components: Vec<(CustomMixComponent, i64)>) -> (r: Result<
        CustomMix,
        CustomMixError,
    >)
        ensures
            match r {
                Ok(m) => {
                    &&& validate_spec(collapse(components@)) == Ok::<(), CustomMixError>(())
                    &&& m.is_mole_based_spec()
                    &&& m.components_seq() == collapse(components@)
                    &&& m.wf()
                },
                Err(e) => validate_spec(collapse(components@)) == Err::<(), CustomMixError>(e),
            },
    {
        let collapsed = collapse_components(&components);
        match Self::validate(&collapsed) {
            Ok(()) => {
                proof {
                    lemma_collapse_distinct(components@);
                }
                Ok(CustomMix::MoleBased(collapsed))
            },
            Err(e) => Err(e),
        }
    }

    /// Create a mass-based mixture from components and their mass
    /// fractions.  Runs exactly the same collapse and validation as
    /// [`CustomMix::mole_based`].
    pub fn mass_based(components: Vec<(CustomMixComponent, i64)>) -> (r: Result<
        CustomMix,
        CustomMixError,
    >)
        ensures
            match r {
                Ok(m) => {
                    &&& validate_spec(collapse(components@)) == Ok::<(), CustomMixError>(())
                    &&& !m.is_mole_based_spec()
                    &&& m.components_seq() == collapse(components@)
                    &&& m.wf()
                },
                Err(e) => validate_spec(collapse(components@)) == Err::<(), CustomMixError>(e),
            },
    {
        let collapsed = collapse_components(&components);
        match Self::validate(&collapsed) {
            Ok(()) => {
                proof {
                    lemma_collapse_distinct(components@);
                }
                Ok(CustomMix::MassBased(collapsed))
            },
            Err(e) => Err(e),
        }
    }
}

/// Collapsing never lengthens a sequence.
pub proof fn lemma_collapse_len(s: Seq<(CustomMixComponent, i64)>)
    ensures
        collapse(s).len() <= s.len(),
    decreases s.len(),
{
    if s.len() > 0 {
        lemma_collapse_len(s.drop_last());
        lemma_find_comp(collapse(s.drop_last()), s.last().0);
    }
}

/// A sequence all of whose entries name the same component collapses
/// to at most one entry, and that entry names the component.
pub proof fn lemma_collapse_all_same(s: Seq<(CustomMixComponent, i64)>, c: CustomMixComponent)
    requires
        forall|i: int| 0 <= i < s.len() ==> (#[trigger] s[i]).0 == c,
    ensures
        collapse(s).len() <= 1,
        collapse(s).len() == 1 ==> collapse(s)[0].0 == c,
    decreases s.len(),
{
    if s.len() > 0 {
        assert(forall|i: int|
            0 <= i < s.len() - 1 ==> (#[trigger] s.drop_last()[i]) == s[i]);
        lemma_collapse_all_same(s.drop_last(), c);
        lemma_find_comp(collapse(s.drop_last()), s.last().0);
    }
}

/// A sequence whose entries already name pairwise distinct
/// components collapses to itself.
pub proof fn lemma_collapse_distinct_input(s: Seq<(CustomMixComponent, i64)>)
    requires
        forall|i: int, j: int| 0 <= i < j < s.len() ==> (#[trigger] s[i]).0 != (#[trigger] s[j]).0,
    ensures
        collapse(s) == s,
    decreases s.len(),
{
    if s.len() > 0 {
        assert(forall|i: int|
            0 <= i < s.len() - 1 ==> (#[trigger] s.drop_last()[i]) == s[i]);
        lemma_collapse_distinct_input(s.drop_last());
        lemma_find_comp(s.drop_last(), s.last().0);
        assert(collapse(s) =~= s);
    }
}

/// Construction rejects inputs with too few components: fewer than
/// two entries, or any number of entries that all name one and the
/// same component, fail the first validation check.
pub proof fn lemma_construction_rejects_too_few(s: Seq<(CustomMixComponent, i64)>)
    requires
        s.len() < 2 || forall|i: int| 0 <= i < s.len() ==> (#[trigger] s[i]).0 == s[0].0,
    ensures
        validate_spec(collapse(s)) == Err::<(), CustomMixError>(
            CustomMixError::NotEnoughComponents,
        ),
{
    if s.len() < 2 {
        lemma_collapse_len(s);
    } else {
        lemma_collapse_all_same(s, s[0].0);
    }
}

/// Construction accepts every input with at least two pairwise
/// distinct components, all of them admissible, whose fractions lie
/// strictly between zero and one and sum to one within tolerance.
pub proof fn lemma_construction_accepts_valid(s: Seq<(CustomMixComponent, i64)>)
    requires
        s.len() >= 2,
        forall|i: int, j: int| 0 <= i < j < s.len() ==> (#[trigger] s[i]).0 != (#[trigger] s[j]).0,
        all_components_valid(s),
        all_fractions_valid(s),
        RATIO_ONE - SUM_TOLERANCE <= fractions_sum(s) <= RATIO_ONE + SUM_TOLERANCE,
    ensures
        validate_spec(collapse(s)) == Ok::<(), CustomMixError>(()),
{
    lemma_collapse_distinct_input(s);
}

/// Scale of an unnormalized mole amount: the result of dividing a
/// nano mass fraction by a nano molar mass is expressed in units of
/// one part in `AMOUNT_SCALE`.
pub const AMOUNT_SCALE: i64 = 1_000_000_000_000_000;

/// Unnormalized amount of moles contributed by one entry: its mass
/// fraction divided by its molar mass, in `AMOUNT_SCALE` units.
pub open spec fn mole_amount(e: (CustomMixComponent, i64)) -> int {
    e.1 * AMOUNT_SCALE / (e.0.molar_mass_spec() as int)
}

/// Sum of the unnormalized mole amounts of `s`.
pub open spec fn amounts_sum(s: Seq<(CustomMixComponent, i64)>) -> int
    decreases s.len(),
{
    if s.len() == 0 {
        0
    } else {
        amounts_sum(s.drop_last()) + mole_amount(s.last())
    }
}

/// The mole-based image of a mass-based component sequence: each
/// entry keeps its component, and its fraction becomes its mole
/// amount renormalized against the sum of all mole amounts.
pub open spec fn converted(s: Seq<(CustomMixComponent, i64)>) -> Seq<(CustomMixComponent, i64)> {
    Seq::new(
        s.len(),
        |i: int| (s[i].0, (mole_amount(s[i]) * RATIO_ONE / amounts_sum(s)) as i64),
    )
}

/// What converting to the mole basis does to a mixture model: the
/// result is mole-based, with the components unchanged if the source
/// already was, and renormalized mole amounts otherwise.
pub open spec fn to_mole_based_spec(m: (bool, Seq<(CustomMixComponent, i64)>)) -> (
    bool,
    Seq<(CustomMixComponent, i64)>,
) {
    (
        true,
        if m.0 {
            m.1
        } else {
            converted(m.1)
        },
    )
}

/// Converting to the mole basis is idempotent: its image is always
/// mole-based, and converting a mole-based mixture changes nothing,
/// so converting twice yields exactly the result of converting once.
pub proof fn lemma_to_mole_based_idempotent(m: (bool, Seq<(CustomMixComponent, i64)>))
    ensures
        to_mole_based_spec(to_mole_based_spec(m)) == to_mole_based_spec(m),
{
}

/// Every molar mass of the closed component set lies strictly
/// between a gram and a kilogram per mole.
pub proof fn lemma_molar_mass_spec_bounds(c: CustomMixComponent)
    ensures
        1_000_000 <= c.molar_mass_spec() < 1_000_000_000,
{
}

/// A valid fraction yields a mole amount between one and the scale
/// bound.
pub proof fn lemma_mole_amount_bounds(e: (CustomMixComponent, i64))
    requires
        0 < e.1 < RATIO_ONE,
    ensures
        1 <= mole_amount(e) < 1_000_000_000_000_000_000,
{
    lemma_molar_mass_spec_bounds(e.0);
    let num = e.1 * AMOUNT_SCALE;
    let m = e.0.molar_mass_spec() as int;
    assert(num >= AMOUNT_SCALE);
    assert(num < RATIO_ONE * AMOUNT_SCALE) by (nonlinear_arith)
        requires
            0 < e.1 < RATIO_ONE,
            num == e.1 * AMOUNT_SCALE,
    {
    }
    assert(num / m >= 1) by (nonlinear_arith)
        requires
            num >= m > 0,
    {
    }
    assert(num / m < 1_000_000_000_000_000_000) by (nonlinear_arith)
        requires
            0 < 1_000_000 <= m,
            0 <= num < 1_000_000_000_000_000_000_000_000,
    {
    }
}

/// With valid fractions the amounts sum is at least the length and
/// at most the length times the largest single amount.
pub proof fn lemma_amounts_sum_bounds(s: Seq<(CustomMixComponent, i64)>)
    requires
        all_fractions_valid(s),
    ensures
        s.len() <= amounts_sum(s) <= s.len() * 999_999_999_999_999_999,
    decreases s.len(),
{
    if s.len() > 0 {
        assert(all_fractions_valid(s.drop_last())) by {
            assert(forall|k: int|
                0 <= k < s.len() - 1 ==> s.drop_last()[k] == (#[trigger] s[k]));
        }
        lemma_amounts_sum_bounds(s.drop_last());
        assert(0 < (#[trigger] s[s.len() - 1]).1 < RATIO_ONE);
        lemma_mole_amount_bounds(s.last());
    }
}

/// Each single mole amount is at most the amounts sum.
pub proof fn lemma_amount_le_sum(s: Seq<(CustomMixComponent, i64)>, i: int)
    requires
        all_fractions_valid(s),
        0 <= i < s.len(),
    ensures
        mole_amount(s[i]) <= amounts_sum(s),
    decreases s.len(),
{
    assert(all_fractions_valid(s.drop_last())) by {
        assert(forall|k: int| 0 <= k < s.len() - 1 ==> s.drop_last()[k] == (#[trigger] s[k]));
    }
    lemma_amounts_sum_bounds(s.drop_last());
    if i == s.len() - 1 {
    } else {
        lemma_amount_le_sum(s.drop_last(), i);
        assert(0 < (#[trigger] s[s.len() - 1]).1 < RATIO_ONE);
        lemma_mole_amount_bounds(s.last());
    }
}

/// For a positive divisor, integer division distributes over a sum
/// of nonnegative terms up to one unit of rounding.
proof fn lemma_div_sum_bounds(a: int, b: int, d: int)
    requires
        0 <= a,
        0 <= b,
        0 < d,
    ensures
        a / d + b / d <= (a + b) / d <= a / d + b / d + 1,
{
    vstd::arithmetic::div_mod::lemma_fundamental_div_mod(a, d);
    vstd::arithmetic::div_mod::lemma_fundamental_div_mod(b, d);
    vstd::arithmetic::div_mod::lemma_fundamental_div_mod(a + b, d);
    vstd::arithmetic::div_mod::lemma_mod_bound(a, d);
    vstd::arithmetic::div_mod::lemma_mod_bound(b, d);
    vstd::arithmetic::div_mod::lemma_mod_bound(a + b, d);
    assert(a / d + b / d <= (a + b) / d <= a / d + b / d + 1) by (nonlinear_arith)
        requires
            a == d * (a / d) + a % d,
            b == d * (b / d) + b % d,
            a + b == d * ((a + b) / d) + (a + b) % d,
            0 <= a % d < d,
            0 <= b % d < d,
            0 <= (a + b) % d < d,
            0 < d,
    {
    }
}

/// Validity of all fractions carries over to every prefix.
proof fn lemma_prefix_fractions_valid(s: Seq<(CustomMixComponent, i64)>, k: int)
    requires
        all_fractions_valid(s),
        0 <= k <= s.len(),
    ensures
        all_fractions_valid(s.take(k)),
{
    assert(forall|i: int| 0 <= i < k ==> s.take(k)[i] == (#[trigger] s[i]));
}

/// Bounds on the sum of the first `k` renormalized fractions: it
/// tracks the exact share of the first `k` mole amounts, short at
/// most one rounding unit per component.
proof fn lemma_converted_prefix_sum(s: Seq<(CustomMixComponent, i64)>, k: int)
    requires
        0 < s.len(),
        all_fractions_valid(s),
        0 <= k <= s.len(),
    ensures
        amounts_sum(s.take(k)) * RATIO_ONE / amounts_sum(s) - k <= fractions_sum(
            converted(s).take(k),
        ) <= amounts_sum(s.take(k)) * RATIO_ONE / amounts_sum(s),
    decreases k,
{
    let t = amounts_sum(s);
    lemma_amounts_sum_bounds(s);
    if k == 0 {
        assert(s.take(0).len() == 0);
        assert(converted(s).take(0).len() == 0);
        vstd::arithmetic::div_mod::lemma_div_of0(t);
    } else {
        lemma_converted_prefix_sum(s, k - 1);
        lemma_prefix_fractions_valid(s, k - 1);
        lemma_prefix_fractions_valid(s, k);
        lemma_amounts_sum_bounds(s.take(k - 1));
        assert(s.take(k).drop_last() =~= s.take(k - 1));
        assert(s.take(k).last() == s[k - 1]);
        assert(converted(s).take(k).drop_last() =~= converted(s).take(k - 1));
        assert(converted(s).take(k).last() == converted(s)[k - 1]);
        assert(0 < (#[trigger] s[k - 1]).1 < RATIO_ONE);
        lemma_mole_amount_bounds(s[k - 1]);
        lemma_amount_le_sum(s, k - 1);
        let a = mole_amount(s[k - 1]);
        let prev = amounts_sum(s.take(k - 1));
        // The stored fraction is the exact quotient: it fits i64.
        vstd::arithmetic::div_mod::lemma_div_pos_is_pos(a * RATIO_ONE, t);
        vstd::arithmetic::div_mod::lemma_div_is_ordered(a * RATIO_ONE, t * RATIO_ONE, t);
        assert(a * RATIO_ONE <= t * RATIO_ONE) by (nonlinear_arith)
            requires
                a <= t,
                RATIO_ONE > 0,
        {
        }
        vstd::arithmetic::div_mod::lemma_div_multiples_vanish(RATIO_ONE as int, t);
        assert(converted(s)[k - 1].1 == a * RATIO_ONE / t);
        assert(prev * RATIO_ONE >= 0) by (nonlinear_arith)
            requires
                prev >= 0,
                RATIO_ONE > 0,
        {
        }
        assert(a * RATIO_ONE >= 0) by (nonlinear_arith)
            requires
                a >= 0,
                RATIO_ONE > 0,
        {
        }
        lemma_div_sum_bounds(prev * RATIO_ONE, a * RATIO_ONE, t);
        assert(prev * RATIO_ONE + a * RATIO_ONE == (prev + a) * RATIO_ONE) by (nonlinear_arith)
        {
        }
    }
}

/// Renormalization sums back to one: the converted fractions of a
/// nonempty mass-based composition sum to one, short at most one
/// nano unit of rounding per component.
pub proof fn lemma_converted_fractions_sum(s: Seq<(CustomMixComponent, i64)>)
    requires
        0 < s.len(),
        all_fractions_valid(s),
    ensures
        RATIO_ONE - s.len() <= fractions_sum(converted(s)) <= RATIO_ONE,
{
    let t = amounts_sum(s);
    lemma_amounts_sum_bounds(s);
    lemma_converted_prefix_sum(s, s.len() as int);
    assert(s.take(s.len() as int) =~= s);
    assert(converted(s).take(s.len() as int) =~= converted(s));
    vstd::arithmetic::div_mod::lemma_div_multiples_vanish(RATIO_ONE as int, t);
    assert(t * RATIO_ONE / t == RATIO_ONE as int) by {
        assert(t * (RATIO_ONE as int) == (RATIO_ONE as int) * t) by (nonlinear_arith)
        {
        }
    }
}

impl CustomMix {
    /// Convert to a mole-based mixture.  An already mole-based
    /// mixture comes back with the same components and fractions; a
    /// mass-based one comes back mole-based, each mass fraction
    /// divided by its component's molar mass and the resulting mole
    /// amounts renormalized so that they sum to one.
    pub fn to_mole_based(&self) -> (r: CustomMix)
        requires
            self.is_mole_based_spec() || (self.components_seq().len() > 0
                && all_fractions_valid(self.components_seq())),
        ensures
            r.is_mole_based_spec(),
            self.is_mole_based_spec() ==> r.components_seq() == self.components_seq(),
            !self.is_mole_based_spec() ==> r.components_seq() == converted(self.components_seq()),
            (r.is_mole_based_spec(), r.components_seq()) == to_mole_based_spec(
                (self.is_mole_based_spec(), self.components_seq()),
            ),
    {
        match self {
            CustomMix::MassBased(c) => {
                let n = c.len();
                let mut amounts: Vec<u128> = Vec::new();
                let mut k: usize = 0;
                while k < n
                    invariant
                        n == c@.len(),
                        all_fractions_valid(c@),
                        k <= n,
                        amounts@.len() == k,
                        forall|j: int| 0 <= j < k ==> #[trigger] amounts@[j] == mole_amount(c@[j]),
                    decreases n - k,
                {
                    proof {
                        assert(0 < (#[trigger] c@[k as int]).1 < RATIO_ONE);
                    }
                    let f = c[k].1;
                    let m = c[k].0.molar_mass();
                    proof {
                        assert(0 < f < RATIO_ONE);
                        assert((f as u128) * (AMOUNT_SCALE as u128) < (RATIO_ONE as u128) * (
                        AMOUNT_SCALE as u128)) by (nonlinear_arith)
                            requires
                                0 < (f as u128) < (RATIO_ONE as u128),
                                0 < (AMOUNT_SCALE as u128),
                        {
                        }
                    }
                    let a: u128 = (f as u128) * (AMOUNT_SCALE as u128) / (m as u128);
                    amounts.push(a);
                    k += 1;
                }
                let mut sum: u128 = 0;
                let mut k: usize = 0;
                while k < n
                    invariant
                        n == c@.len(),
                        all_fractions_valid(c@),
                        k <= n,
                        amounts@.len() == n,
                        forall|j: int| 0 <= j < n ==> #[trigger] amounts@[j] == mole_amount(c@[j]),
                        sum == amounts_sum(c@.take(k as int)),
                        sum <= (k as int) * 1_000_000_000_000_000_000,
                    decreases n - k,
                {
                    proof {
                        assert(c@.take(k + 1).drop_last() =~= c@.take(k as int));
                        assert(c@.take(k + 1).last() == c@[k as int]);
                        assert(0 < (#[trigger] c@[k as int]).1 < RATIO_ONE);
                        lemma_mole_amount_bounds(c@[k as int]);
                    }
                    sum = sum + amounts[k];
                    k += 1;
                }
                proof {
                    assert(c@.take(n as int) =~= c@);
                    lemma_amounts_sum_bounds(c@);
                }
                let mut out: Vec<(CustomMixComponent, i64)> = Vec::new();
                let mut k: usize = 0;
                while k < n
                    invariant
                        n == c@.len(),
                        all_fractions_valid(c@),
                        0 < n,
                        k <= n,
                        amounts@.len() == n,
                        forall|j: int| 0 <= j < n ==> #[trigger] amounts@[j] == mole_amount(c@[j]),
                        sum == amounts_sum(c@),
                        1 <= sum,
                        out@ == converted(c@).take(k as int),
                    decreases n - k,
                {
                    proof {
                        assert(0 < (#[trigger] c@[k as int]).1 < RATIO_ONE);
                        lemma_mole_amount_bounds(c@[k as int]);
                        lemma_amount_le_sum(c@, k as int);
                        vstd::arithmetic::div_mod::lemma_div_is_ordered(
                            mole_amount(c@[k as int]) * RATIO_ONE,
                            amounts_sum(c@) * RATIO_ONE,
                            amounts_sum(c@),
                        );
                        assert(mole_amount(c@[k as int]) * RATIO_ONE
                            <= amounts_sum(c@) * RATIO_ONE) by (nonlinear_arith)
                            requires
                                mole_amount(c@[k as int]) <= amounts_sum(c@),
                                RATIO_ONE > 0,
                        {
                        }
                        vstd::arithmetic::div_mod::lemma_div_multiples_vanish(
                            RATIO_ONE as int,
                            amounts_sum(c@),
                        );
                    }
                    let a = amounts[k];
                    let x: u128 = a * (RATIO_ONE as u128) / sum;
                    out.push((c[k].0, x as i64));
                    proof {
                        assert(converted(c@).take(k + 1) =~= converted(c@).take(k as int).push(
                            converted(c@)[k as int],
                        ));
                    }
                    k += 1;
                }
                proof {
                    assert(converted(c@).take(n as int) =~= converted(c@));
                }
                CustomMix::MoleBased(out)
            },
            CustomMix::MoleBased(c) => {
                let n = c.len();
                let mut out: Vec<(CustomMixComponent, i64)> = Vec::new();
                let mut k: usize = 0;
                while k < n
                    invariant
                        n == c@.len(),
                        k <= n,
                        out@ == c@.take(k as int),
                    decreases n - k,
                {
                    out.push(c[k]);
                    proof {
                        assert(c@.take(k + 1) =~= c@.take(k as int).push(c@[k as int]));
                    }
                    k += 1;
                }
                proof {
                    assert(c@.take(n as int) =~= c@);
                }
                CustomMix::MoleBased(out)
            },
        }
    }
}

impl BackendName for CustomMix {
    open spec fn backend_name_spec(&self) -> Seq<char> {
        "HEOS"@
    }

    fn backend_name(&self) -> (r: &'static str)
        ensures
            r@ == self.backend_name_spec(),
    {
        "HEOS"
    }
}

} // verus!
