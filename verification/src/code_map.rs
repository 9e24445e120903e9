//! A plain mapping from parameter codes to fixed-point values,
//! backing the per-instance output caches of a fluid handle.  The
//! map is viewed as a mathematical `Map` and its entries hold each
//! code at most once.

use vstd::prelude::*;

verus! {

/// The mathematical map described by an entry sequence: later
/// entries overwrite earlier ones.
pub open spec fn map_of(s: Seq<(u8, i64)>) -> Map<u8, i64>
    decreases s.len(),
{
    if s.len() == 0 {
        Map::empty()
    } else {
        map_of(s.drop_last()).insert(s.last().0, s.last().1)
    }
}

/// A code is in the map of `s` exactly when some entry carries it.
pub proof fn lemma_map_of_contains(s: Seq<(u8, i64)>, key: u8)
    ensures
        map_of(s).contains_key(key) <==> exists|i: int| 0 <= i < s.len() && (#[trigger] s[i]).0
            == key,
    decreases s.len(),
{
    if s.len() > 0 {
        lemma_map_of_contains(s.drop_last(), key);
        if s.last().0 == key {
            assert((#[trigger] s[s.len() - 1]).0 == key);
        } else if exists|i: int| 0 <= i < s.len() && (#[trigger] s[i]).0 == key {
            let i = choose|i: int| 0 <= i < s.len() && (#[trigger] s[i]).0 == key;
            assert(s.drop_last()[i] == s[i]);
        }
    }
}

/// With pairwise distinct codes, each entry's value is the one the
/// map holds for its code.
pub proof fn lemma_map_of_value(s: Seq<(u8, i64)>, i: int)
    requires
        forall|p: int, q: int| 0 <= p < q < s.len() ==> (#[trigger] s[p]).0 != (#[trigger] s[q]).0,
        0 <= i < s.len(),
    ensures
        map_of(s).contains_key(s[i].0),
        map_of(s)[s[i].0] == s[i].1,
    decreases s.len(),
{
    if i == s.len() - 1 {
    } else {
        assert(forall|p: int, q: int|
            0 <= p < q < s.len() - 1 ==> (#[trigger] s.drop_last()[p]).0 != (#[trigger] s
                .drop_last()[q]).0);
        lemma_map_of_value(s.drop_last(), i);
        assert(s.drop_last()[i] == s[i]);
        assert(s[i].0 != s[s.len() - 1].0);
    }
}

/// A cache of fixed-point values keyed by parameter code.
#[derive(Debug)]
pub struct CodeMap {
    entries: Vec<(u8, i64)>,
}

impl CodeMap {
    /// The mathematical map of cached values.
    pub closed spec fn view_spec(self) -> Map<u8, i64> {
        map_of(self.entries@)
    }

    /// The cache holds each code at most once.
    #[verifier::type_invariant]
    spec fn wf(self) -> bool {
        forall|p: int, q: int|
            0 <= p < q < self.entries@.len() ==> (#[trigger] self.entries@[p]).0 != (
            #[trigger] self.entries@[q]).0
    }

    /// An empty cache.
    pub fn new() -> (r: CodeMap)
        ensures
            r.view_spec() == Map::<u8, i64>::empty(),
    {
        CodeMap { entries: Vec::new() }
    }

    /// The value cached under a code, if any.
    pub fn get(&self, key: u8) -> (r: Option<i64>)
        ensures
            match r {
                Some(v) => self.view_spec().contains_key(key) && self.view_spec()[key] == v,
                None => !self.view_spec().contains_key(key),
            },
    {
        proof {
            use_type_invariant(self);
        }
        let n = self.entries.len();
        let mut i: usize = 0;
        while i < n
            invariant
                n == self.entries@.len(),
                i <= n,
                self.wf(),
                forall|k: int| 0 <= k < i ==> (#[trigger] self.entries@[k]).0 != key,
            decreases n - i,
        {
            if self.entries[i].0 == key {
                proof {
                    lemma_map_of_value(self.entries@, i as int);
                }
                return Some(self.entries[i].1);
            }
            i += 1;
        }
        proof {
            lemma_map_of_contains(self.entries@, key);
        }
        None
    }

    /// Cache a value under a code not yet present.
    pub fn insert(&mut self, key: u8, value: i64)
        requires
            !old(self).view_spec().contains_key(key),
        ensures
            final(self).view_spec() == old(self).view_spec().insert(key, value),
    {
        proof {
            use_type_invariant(&*self);
            lemma_map_of_contains(self.entries@, key);
        }
        let mut entries: Vec<(u8, i64)> = Vec::new();
        core::mem::swap(&mut entries, &mut self.entries);
        entries.push((key, value));
        proof {
            assert(entries@.drop_last() =~= old(self).entries@);
            assert(entries@.last() == (key, value));
        }
        self.entries = entries;
    }

    /// Drop every cached value.
    pub fn clear(&mut self)
        ensures
            final(self).view_spec() == Map::<u8, i64>::empty(),
    {
        self.entries = Vec::new();
    }
}

} // verus!
