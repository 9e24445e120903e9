//! The backend capability a fluid handle is built over: the abstract
//! interface of the external thermophysical-property evaluator.  The
//! engine promises nothing about what an evaluation returns — only
//! how it routes, caches and surfaces the results — so the trait
//! methods carry no contracts, and any implementation may stand in.
//!
//! [`StubBackend`] is a deterministic, call-counting implementation
//! answering from a fixed table, suitable for exercising the engine
//! without a numerical backend.  It records the last fraction vector
//! it was handed, so a caller can check not just that the
//! composition reached it, but which values did.

use vstd::prelude::*;

use crate::code_map::CodeMap;
use crate::error::BackendError;

verus! {

/// The operations the state-resolution engine relies on.  An
/// implementation owns one substance's evaluation state; its
/// numerics are outside the scope of this crate.
pub trait Backend {
    /// Record the fractions of a mixture's components.
    fn set_fractions(&mut self, fractions: &Vec<i64>) -> Result<(), BackendError>;

    /// Establish the thermodynamic state determined by two keyed
    /// values with distinct parameter codes.
    fn update(&mut self, key1: u8, value1: i64, key2: u8, value2: i64) -> Result<
        (),
        BackendError,
    >;

    /// Evaluate the property registered under a parameter code at
    /// the current state, in nano SI units.
    fn keyed_output(&mut self, key: u8) -> Result<i64, BackendError>;
}

/// The answer table built from an entry sequence: of entries sharing
/// a code, the first one wins.
pub open spec fn first_wins_map(s: Seq<(u8, i64)>) -> Map<u8, i64>
    decreases s.len(),
{
    if s.len() == 0 {
        Map::empty()
    } else {
        let m = first_wins_map(s.drop_last());
        if m.contains_key(s.last().0) {
            m
        } else {
            m.insert(s.last().0, s.last().1)
        }
    }
}

/// A deterministic backend stub: answers every property query from
/// a fixed code-to-value table, accepts or rejects every update
/// according to a flag fixed at construction, counts the calls it
/// receives, and keeps the fraction vector it was last handed.
#[derive(Debug)]
pub struct StubBackend {
    answers: CodeMap,
    accept_updates: bool,
    fractions: Vec<i64>,
    set_fractions_calls: u64,
    update_calls: u64,
    output_calls: u64,
}

impl StubBackend {
    /// The table the stub answers property queries from.
    pub closed spec fn answers_spec(self) -> Map<u8, i64> {
        self.answers.view_spec()
    }

    /// Whether the stub accepts updates.
    pub closed spec fn accepts_updates_spec(self) -> bool {
        self.accept_updates
    }

    /// The fraction vector handed to the last `set_fractions` call,
    /// empty before the first.
    pub closed spec fn last_fractions_spec(self) -> Seq<i64> {
        self.fractions@
    }

    /// How many times `set_fractions` has been called.
    pub closed spec fn set_fractions_calls_spec(self) -> u64 {
        self.set_fractions_calls
    }

    /// How many times `update` has been called.
    pub closed spec fn update_calls_spec(self) -> u64 {
        self.update_calls
    }

    /// How many times `keyed_output` has been called.
    pub closed spec fn output_calls_spec(self) -> u64 {
        self.output_calls
    }

    /// A stub that accepts every update and answers property
    /// queries from the given (code, value) table.  Of entries
    /// sharing a code, the first one wins.  All call counters start
    /// at zero and no fraction vector has been received yet.
    pub fn new(answers: Vec<(u8, i64)>) -> (r: StubBackend)
        ensures
            r.answers_spec() == first_wins_map(answers@),
            r.accepts_updates_spec(),
            r.last_fractions_spec() == Seq::<i64>::empty(),
            r.set_fractions_calls_spec() == 0,
            r.update_calls_spec() == 0,
            r.output_calls_spec() == 0,
    {
        let mut table = CodeMap::new();
        let n = answers.len();
        let mut i: usize = 0;
        while i < n
            invariant
                n == answers@.len(),
                i <= n,
                table.view_spec() == first_wins_map(answers@.take(i as int)),
            decreases n - i,
        {
            proof {
                assert(answers@.take(i + 1).drop_last() =~= answers@.take(i as int));
                assert(answers@.take(i + 1).last() == answers@[i as int]);
            }
            let (key, value) = answers[i];
            match table.get(key) {
                Some(_) => {},
                None => {
                    table.insert(key, value);
                },
            }
            i += 1;
        }
        proof {
            assert(answers@.take(n as int) =~= answers@);
        }
        StubBackend {
            answers: table,
            accept_updates: true,
            fractions: Vec::new(),
            set_fractions_calls: 0,
            update_calls: 0,
            output_calls: 0,
        }
    }

    /// A stub that rejects every update and knows no property.
    pub fn rejecting() -> (r: StubBackend)
        ensures
            r.answers_spec() == Map::<u8, i64>::empty(),
            !r.accepts_updates_spec(),
            r.last_fractions_spec() == Seq::<i64>::empty(),
            r.set_fractions_calls_spec() == 0,
            r.update_calls_spec() == 0,
            r.output_calls_spec() == 0,
    {
        StubBackend {
            answers: CodeMap::new(),
            accept_updates: false,
            fractions: Vec::new(),
            set_fractions_calls: 0,
            update_calls: 0,
            output_calls: 0,
        }
    }

    /// The fraction vector handed to the last `set_fractions` call,
    /// empty before the first.
    pub fn last_fractions(&self) -> (r: &Vec<i64>)
        ensures
            r@ == self.last_fractions_spec(),
    {
        &self.fractions
    }

    /// How many times `set_fractions` has been called.
    pub fn set_fractions_calls(&self) -> (r: u64)
        ensures
            r == self.set_fractions_calls_spec(),
    {
        self.set_fractions_calls
    }

    /// How many times `update` has been called.
    pub fn update_calls(&self) -> (r: u64)
        ensures
            r == self.update_calls_spec(),
    {
        self.update_calls
    }

    /// How many times `keyed_output` has been called.
    pub fn output_calls(&self) -> (r: u64)
        ensures
            r == self.output_calls_spec(),
    {
        self.output_calls
    }
}

impl Backend for StubBackend {
    fn set_fractions(&mut self, fractions: &Vec<i64>) -> (r: Result<(), BackendError>)
        ensures
            r is Ok,
            final(self).last_fractions_spec() == fractions@,
            old(self).set_fractions_calls_spec() < u64::MAX
                ==> final(self).set_fractions_calls_spec()
                == old(self).set_fractions_calls_spec() + 1,
            final(self).update_calls_spec() == old(self).update_calls_spec(),
            final(self).output_calls_spec() == old(self).output_calls_spec(),
            final(self).answers_spec() == old(self).answers_spec(),
            final(self).accepts_updates_spec() == old(self).accepts_updates_spec(),
    {
        if self.set_fractions_calls < u64::MAX {
            self.set_fractions_calls = self.set_fractions_calls + 1;
        }
        let n = fractions.len();
        let mut received: Vec<i64> = Vec::new();
        let mut i: usize = 0;
        while i < n
            invariant
                n == fractions@.len(),
                i <= n,
                received@ == fractions@.take(i as int),
            decreases n - i,
        {
            received.push(fractions[i]);
            proof {
                assert(fractions@.take(i + 1) =~= fractions@.take(i as int).push(
                    fractions@[i as int],
                ));
            }
            i += 1;
        }
        proof {
            assert(fractions@.take(n as int) =~= fractions@);
        }
        self.fractions = received;
        Ok(())
    }

    fn update(&mut self, key1: u8, value1: i64, key2: u8, value2: i64) -> (r: Result<
        (),
        BackendError,
    >)
        ensures
            old(self).accepts_updates_spec() <==> r is Ok,
            old(self).update_calls_spec() < u64::MAX
                ==> final(self).update_calls_spec() == old(self).update_calls_spec() + 1,
            final(self).set_fractions_calls_spec() == old(self).set_fractions_calls_spec(),
            final(self).output_calls_spec() == old(self).output_calls_spec(),
            final(self).answers_spec() == old(self).answers_spec(),
            final(self).accepts_updates_spec() == old(self).accepts_updates_spec(),
            final(self).last_fractions_spec() == old(self).last_fractions_spec(),
    {
        if self.update_calls < u64::MAX {
            self.update_calls = self.update_calls + 1;
        }
        if self.accept_updates {
            Ok(())
        } else {
            Err(BackendError { code: 1 })
        }
    }

    fn keyed_output(&mut self, key: u8) -> (r: Result<i64, BackendError>)
        ensures
            old(self).answers_spec().contains_key(key)
                ==> r == Ok::<i64, BackendError>(old(self).answers_spec()[key]),
            !old(self).answers_spec().contains_key(key) ==> r is Err,
            old(self).output_calls_spec() < u64::MAX
                ==> final(self).output_calls_spec() == old(self).output_calls_spec() + 1,
            final(self).set_fractions_calls_spec() == old(self).set_fractions_calls_spec(),
            final(self).update_calls_spec() == old(self).update_calls_spec(),
            final(self).answers_spec() == old(self).answers_spec(),
            final(self).accepts_updates_spec() == old(self).accepts_updates_spec(),
            final(self).last_fractions_spec() == old(self).last_fractions_spec(),
    {
        if self.output_calls < u64::MAX {
            self.output_calls = self.output_calls + 1;
        }
        match self.answers.get(key) {
            Some(value) => Ok(value),
            None => Err(BackendError { code: 2 }),
        }
    }
}

} // verus!
