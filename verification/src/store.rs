//! A model of the persisted vote store: an append-only run of `Dogs`/`Cats`
//! rows in insertion order, inserted one per accepted vote and truncated
//! whole on reset. The real store is a relational table reached outside this
//! crate; its contract is stated here over a sequence of rows, and the
//! synchronization law says the in-memory tally and the store counts move in
//! lock step.

use vstd::prelude::*;
use crate::counter::{apply_vote, apply_votes, count_votes};
use crate::vote::VoteValue;

verus! {

/// The one write the handler dispatches per accepted vote: append one row
/// carrying the voted category, or delete every row.
#[derive(Clone, Copy, Debug, PartialEq, Eq, Structural)]
pub enum StoreAction {
    Insert(VoteValue),
    DeleteAll,
}

/// The action a vote calls for: a reset truncates the store, any other vote
/// appends one row with its own value.
pub open spec fn action_for(v: VoteValue) -> StoreAction {
    if v == VoteValue::Reset {
        StoreAction::DeleteAll
    } else {
        StoreAction::Insert(v)
    }
}

/// What an action does to the stored rows.
pub open spec fn store_apply(rows: Seq<VoteValue>, a: StoreAction) -> Seq<VoteValue> {
    match a {
        StoreAction::Insert(v) => rows.push(v),
        StoreAction::DeleteAll => Seq::empty(),
    }
}

/// Every stored row is a vote category: the reset command is never persisted.
pub open spec fn wf_rows(rows: Seq<VoteValue>) -> bool {
    forall|i: int| 0 <= i < rows.len() ==> rows[i] != VoteValue::Reset
}

/// Appending one row adds one to the count of its value and leaves every
/// other count unchanged.
pub proof fn lemma_count_push(rows: Seq<VoteValue>, x: VoteValue, v: VoteValue)
    ensures
        count_votes(rows.push(x), v) == count_votes(rows, v) + (if x == v {
            1int
        } else {
            0int
        }),
    decreases rows.len(),
{
    if rows.len() == 0 {
        assert(rows.push(x)[0] == x);
        assert(rows.push(x).drop_first() =~= Seq::empty());
        assert(count_votes(rows.push(x), v) == (if x == v {
            1int
        } else {
            0int
        }) + count_votes(Seq::empty(), v));
    } else {
        assert(rows.push(x)[0] == rows[0]);
        assert(rows.push(x).drop_first() =~= rows.drop_first().push(x));
        lemma_count_push(rows.drop_first(), x, v);
        assert(count_votes(rows.push(x), v) == (if rows[0] == v {
            1int
        } else {
            0int
        }) + count_votes(rows.drop_first().push(x), v));
    }
}

/// The synchronization contract between the tally and the store: if each
/// counter equals the store's count of its category, then after one vote —
/// the counters mutated by `apply_vote` and the store changed by the paired
/// action — each counter again equals the store's count, and the store still
/// holds category rows only.
pub proof fn lemma_vote_keeps_store_sync(dogs: int, cats: int, rows: Seq<VoteValue>, v: VoteValue)
    requires
        wf_rows(rows),
        dogs == count_votes(rows, VoteValue::Dogs),
        cats == count_votes(rows, VoteValue::Cats),
    ensures
        ({
            let tally = apply_vote(dogs, cats, v);
            let stored = store_apply(rows, action_for(v));
            &&& wf_rows(stored)
            &&& tally.0 == count_votes(stored, VoteValue::Dogs)
            &&& tally.1 == count_votes(stored, VoteValue::Cats)
        }),
{
    if v != VoteValue::Reset {
        lemma_count_push(rows, v, VoteValue::Dogs);
        lemma_count_push(rows, v, VoteValue::Cats);
    }
}

/// A run of votes applied to the stored rows, each through its paired
/// action, first vote first.
pub open spec fn store_apply_votes(rows: Seq<VoteValue>, vs: Seq<VoteValue>) -> Seq<VoteValue>
    decreases vs.len(),
{
    if vs.len() == 0 {
        rows
    } else {
        store_apply_votes(store_apply(rows, action_for(vs[0])), vs.drop_first())
    }
}

/// The synchronization contract over a whole run: starting from counters
/// equal to the store's per-category counts, after any run of votes — each
/// mutating the tally and then performing its paired store action — the
/// counters again equal the store's counts, and the store still holds
/// category rows only.
pub proof fn lemma_run_keeps_store_sync(dogs: int, cats: int, rows: Seq<VoteValue>, vs: Seq<
    VoteValue,
>)
    requires
        wf_rows(rows),
        dogs == count_votes(rows, VoteValue::Dogs),
        cats == count_votes(rows, VoteValue::Cats),
    ensures
        ({
            let tally = apply_votes(dogs, cats, vs);
            let stored = store_apply_votes(rows, vs);
            &&& wf_rows(stored)
            &&& tally.0 == count_votes(stored, VoteValue::Dogs)
            &&& tally.1 == count_votes(stored, VoteValue::Cats)
        }),
    decreases vs.len(),
{
    if vs.len() > 0 {
        lemma_vote_keeps_store_sync(dogs, cats, rows, vs[0]);
        let next = apply_vote(dogs, cats, vs[0]);
        lemma_run_keeps_store_sync(
            next.0,
            next.1,
            store_apply(rows, action_for(vs[0])),
            vs.drop_first(),
        );
    }
}

/// An executable reference model of the store, used where the contract of
/// the external table is exercised on concrete values: rows in insertion
/// order, one text-valued category per row.
pub struct StoreModel {
    rows: Vec<VoteValue>,
}

impl View for StoreModel {
    type V = Seq<VoteValue>;

    closed spec fn view(&self) -> Seq<VoteValue> {
        self.rows@
    }
}

impl StoreModel {
    /// An empty store.
    pub fn new() -> (r: StoreModel)
        ensures
            r@ == Seq::<VoteValue>::empty(),
    {
        StoreModel { rows: Vec::new() }
    }

    /// Appends one row holding `v`. Only vote categories are ever inserted.
    pub fn insert(&mut self, v: VoteValue)
        requires
            v != VoteValue::Reset,
        ensures
            final(self)@ == old(self)@.push(v),
    {
        self.rows.push(v);
    }

    /// Deletes every row: a full truncation, not an undoable operation.
    pub fn delete_all(&mut self)
        ensures
            final(self)@ == Seq::<VoteValue>::empty(),
    {
        self.rows.clear();
    }

    /// Performs `a` on the store.
    pub fn apply(&mut self, a: StoreAction)
        requires
            a matches StoreAction::Insert(v) ==> v != VoteValue::Reset,
        ensures
            final(self)@ == store_apply(old(self)@, a),
    {
        match a {
            StoreAction::Insert(v) => self.insert(v),
            StoreAction::DeleteAll => self.delete_all(),
        }
    }

    /// How many rows hold `v`: the startup query that seeds the tally.
    pub fn count_by_value(&self, v: VoteValue) -> (r: usize)
        ensures
            r == count_votes(self@, v),
    {
        let mut i: usize = 0;
        let mut acc: usize = 0;
        while i < self.rows.len()
            invariant
                i <= self.rows.len(),
                acc == count_votes(self@.take(i as int), v),
                acc <= i,
            decreases self.rows.len() - i,
        {
            proof {
                assert(self@.take(i + 1) =~= self@.take(i as int).push(self@[i as int]));
                lemma_count_push(self@.take(i as int), self@[i as int], v);
            }
            if self.rows[i] == v {
                acc = acc + 1;
            }
            i = i + 1;
        }
        proof {
            assert(self@.take(self.rows.len() as int) =~= self@);
        }
        acc
    }

    /// How many rows the store holds in all.
    pub fn len(&self) -> (r: usize)
        ensures
            r == self@.len(),
    {
        self.rows.len()
    }
}

} // verus!
