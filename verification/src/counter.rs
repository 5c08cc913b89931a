//! The in-memory vote tally: two non-negative counters mutated only through
//! `increment` and `reset`, read only through `snapshot`, together with a
//! sequence model of those operations and the laws the tally obeys.
//!
//! Callers that serve concurrent requests hold a value of this type behind a
//! single mutual-exclusion primitive covering both counters jointly; each
//! operation below is then one critical section, so every execution is some
//! sequential order of the operations and the laws over `apply_votes` speak
//! about every interleaving.

use vstd::prelude::*;
use crate::vote::VoteValue;

verus! {

/// The two counters as one value, so that a mutation or a read always covers
/// both jointly and no reader can see one counter from before an operation
/// and the other from after it.
pub struct VoteCounter {
    dogs: u64,
    cats: u64,
}

/// One vote applied to a tally: `Dogs` and `Cats` increment their counter and
/// leave the other untouched, `Reset` zeroes both.
pub open spec fn apply_vote(dogs: int, cats: int, v: VoteValue) -> (int, int) {
    match v {
        VoteValue::Dogs => (dogs + 1, cats),
        VoteValue::Cats => (dogs, cats + 1),
        VoteValue::Reset => (0, 0),
    }
}

/// A sequence of votes applied in order, first element first.
pub open spec fn apply_votes(dogs: int, cats: int, vs: Seq<VoteValue>) -> (int, int)
    decreases vs.len(),
{
    if vs.len() == 0 {
        (dogs, cats)
    } else {
        let next = apply_vote(dogs, cats, vs[0]);
        apply_votes(next.0, next.1, vs.drop_first())
    }
}

/// How many votes in `vs` equal `v`.
pub open spec fn count_votes(vs: Seq<VoteValue>, v: VoteValue) -> nat
    decreases vs.len(),
{
    if vs.len() == 0 {
        0
    } else {
        (if vs[0] == v {
            1nat
        } else {
            0nat
        }) + count_votes(vs.drop_first(), v)
    }
}

impl VoteCounter {
    /// The current dog tally.
    pub closed spec fn dog_count(&self) -> u64 {
        self.dogs
    }

    /// The current cat tally.
    pub closed spec fn cat_count(&self) -> u64 {
        self.cats
    }

    /// A fresh tally with both counters at zero.
    pub fn new() -> (r: VoteCounter)
        ensures
            r.dog_count() == 0,
            r.cat_count() == 0,
    {
        VoteCounter { dogs: 0, cats: 0 }
    }

    /// Seeds the tally from the per-category counts found in the persisted
    /// store at startup: the first snapshot equals exactly those counts.
    pub fn from_counts(dogs: u64, cats: u64) -> (r: VoteCounter)
        ensures
            r.dog_count() == dogs,
            r.cat_count() == cats,
    {
        VoteCounter { dogs, cats }
    }

    /// Adds one vote to the counter matching `category` and leaves the other
    /// counter untouched.
    pub fn increment(&mut self, category: VoteValue)
        requires
            category != VoteValue::Reset,
            category == VoteValue::Dogs ==> old(self).dog_count() < u64::MAX,
            category == VoteValue::Cats ==> old(self).cat_count() < u64::MAX,
        ensures
            (final(self).dog_count() as int, final(self).cat_count() as int) == apply_vote(
                old(self).dog_count() as int,
                old(self).cat_count() as int,
                category,
            ),
            category == VoteValue::Dogs ==> final(self).dog_count() == old(self).dog_count() + 1
                && final(self).cat_count() == old(self).cat_count(),
            category == VoteValue::Cats ==> final(self).cat_count() == old(self).cat_count() + 1
                && final(self).dog_count() == old(self).dog_count(),
    {
        match category {
            VoteValue::Dogs => {
                self.dogs = self.dogs + 1;
            },
            VoteValue::Cats => {
                self.cats = self.cats + 1;
            },
            VoteValue::Reset => {
            },
        }
    }

    /// Sets both counters to zero, whatever they held before.
    pub fn reset(&mut self)
        ensures
            final(self).dog_count() == 0,
            final(self).cat_count() == 0,
            (final(self).dog_count() as int, final(self).cat_count() as int) == apply_vote(
                old(self).dog_count() as int,
                old(self).cat_count() as int,
                VoteValue::Reset,
            ),
    {
        self.dogs = 0;
        self.cats = 0;
    }

    /// Reads both counters as one consistent pair. The result is a function
    /// of the tally alone, so two reads with no mutation between them return
    /// the identical pair.
    pub fn snapshot(&self) -> (r: (u64, u64))
        ensures
            r == (self.dog_count(), self.cat_count()),
    {
        (self.dogs, self.cats)
    }
}

/// Two increments commute: applying two non-reset votes in either order ends
/// in the same tally, which is why any interleaving of increments alone is
/// insensitive to the order the lock granted.
pub proof fn lemma_increments_commute(dogs: int, cats: int, u: VoteValue, v: VoteValue)
    requires
        u != VoteValue::Reset,
        v != VoteValue::Reset,
    ensures
        ({
            let uv = apply_vote(apply_vote(dogs, cats, u).0, apply_vote(dogs, cats, u).1, v);
            let vu = apply_vote(apply_vote(dogs, cats, v).0, apply_vote(dogs, cats, v).1, u);
            uv == vu
        }),
{
}

/// No sequential order of votes can produce an impossible tally: starting
/// from non-negative counters, every order leaves each counter non-negative
/// and no larger than its start plus the number of increments issued for its
/// category.
pub proof fn lemma_tally_bounds(dogs: int, cats: int, vs: Seq<VoteValue>)
    requires
        dogs >= 0,
        cats >= 0,
    ensures
        0 <= apply_votes(dogs, cats, vs).0 <= dogs + count_votes(vs, VoteValue::Dogs),
        0 <= apply_votes(dogs, cats, vs).1 <= cats + count_votes(vs, VoteValue::Cats),
    decreases vs.len(),
{
    if vs.len() > 0 {
        let next = apply_vote(dogs, cats, vs[0]);
        lemma_tally_bounds(next.0, next.1, vs.drop_first());
    }
}

/// Category isolation: a run of votes with no reset adds exactly its number
/// of dog votes to the dog counter and its number of cat votes to the cat
/// counter, in every order.
pub proof fn lemma_category_isolation(dogs: int, cats: int, vs: Seq<VoteValue>)
    requires
        forall|i: int| 0 <= i < vs.len() ==> vs[i] != VoteValue::Reset,
    ensures
        apply_votes(dogs, cats, vs) == (
            dogs + count_votes(vs, VoteValue::Dogs),
            cats + count_votes(vs, VoteValue::Cats),
        ),
    decreases vs.len(),
{
    if vs.len() > 0 {
        let next = apply_vote(dogs, cats, vs[0]);
        lemma_category_isolation(next.0, next.1, vs.drop_first());
    }
}

} // verus!
