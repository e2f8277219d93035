//! Seeded value generation, split into two cooperating capabilities.
//!
//! An [`Rng`] produces successive unsigned 32-bit values; a [`Rand`]
//! implementor consumes an [`Rng`] through its public interface alone to
//! construct one typed value per call. A producer is generic over any bit
//! source, so a deterministic fixed-sequence source can stand in for a real
//! generator without touching producer logic.
//!
//! Each source carries a ghost model of the values it has yet to hand out:
//! `stream(i)` is the value its `i`-th future call returns. Drawing a value
//! returns `stream(0)` and shifts the model by one, so consumption is exact:
//! each draw takes one value, in order, and nothing else.

use vstd::prelude::*;

verus! {

/// A stateful source of successive unsigned 32-bit values.
pub trait Rng {
    /// The value the source will return on its `i`-th future call.
    spec fn stream(&self, i: nat) -> u32;

    /// Hand out the next 32-bit value and advance the internal state.
    fn next_32(&mut self) -> (r: u32)
        ensures
            r == old(self).stream(0),
            forall|i: nat| #[trigger] final(self).stream(i) == old(self).stream(i + 1),
    ;
}

/// A consumer of a bit source: constructs one value of the implementing
/// type per call, from exactly one 32-bit draw.
pub trait Rand: Sized {
    /// The value this producer constructs from one 32-bit draw.
    spec fn from_bits(bits: u32) -> Self;

    /// Draw exactly one value from `rng` and construct a result from it.
    /// Any type implementing [`Rng`] serves as the source.
    fn rand<R: Rng>(rng: &mut R) -> (r: Self)
        ensures
            r == Self::from_bits(old(rng).stream(0)),
            forall|i: nat| #[trigger] final(rng).stream(i) == old(rng).stream(i + 1),
    ;
}

/// A boolean is drawn from one 32-bit value: `true` iff the value is even.
impl Rand for bool {
    open spec fn from_bits(bits: u32) -> bool {
        bits % 2 == 0
    }

    fn rand<R: Rng>(rng: &mut R) -> (r: bool) {
        rng.next_32() % 2 == 0
    }
}

/// A placeholder bit source: every call returns the same fixed value.
/// A real generator would advance a seed instead.
pub struct SomeRng {}

impl Rng for SomeRng {
    open spec fn stream(&self, i: nat) -> u32 {
        99
    }

    fn next_32(&mut self) -> (r: u32) {
        99
    }
}

/// A deterministic bit source for reproducible runs: hands out a queued
/// sequence of values in order, and 0 once the queue is exhausted.
pub struct FixedRng {
    values: Vec<u32>,
    pos: usize,
}

impl FixedRng {
    /// A source whose `i`-th call returns `values[i]`, then 0 forever.
    pub fn new(values: Vec<u32>) -> (r: FixedRng)
        ensures
            forall|i: nat| i < values@.len() ==> #[trigger] r.stream(i) == values@[i as int],
            forall|i: nat| i >= values@.len() ==> #[trigger] r.stream(i) == 0u32,
    {
        FixedRng { values, pos: 0 }
    }
}

impl Rng for FixedRng {
    closed spec fn stream(&self, i: nat) -> u32 {
        if self.pos + i < self.values@.len() {
            self.values@[self.pos + i]
        } else {
            0u32
        }
    }

    fn next_32(&mut self) -> (r: u32) {
        if self.pos < self.values.len() {
            let v = self.values[self.pos];
            self.pos = self.pos + 1;
            v
        } else {
            0
        }
    }
}

} // verus!
