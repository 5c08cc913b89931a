//! The vote handler: the one state-changing path. For an accepted ballot it
//! mutates the tally first, then names the store write to dispatch, and
//! builds the page data from a snapshot taken after the mutation — so the
//! response always shows the fresh in-memory tally, whatever later becomes
//! of the store write. The read-only path builds the page data from the
//! current tally and mutates nothing.

use vstd::prelude::*;
use crate::counter::{VoteCounter, apply_vote};
use crate::page::{PageModel, page_matches, page_model};
use crate::store::{StoreAction, action_for};
use crate::vote::VoteValue;

verus! {

/// Handles one accepted ballot end-to-end, short of the outside world:
/// mutates the tally as `apply_vote` says, returns the store action paired
/// with the vote — one inserted row for a category, a full truncation for a
/// reset — and the page data for the post-mutation snapshot.
///
/// The caller dispatches the action to the real store only after this
/// returns, so the counter mutation always precedes the write, and builds
/// the response from the returned page data without waiting on the write's
/// outcome.
pub fn handle_vote(counter: &mut VoteCounter, v: VoteValue) -> (r: (StoreAction, PageModel))
    requires
        v == VoteValue::Dogs ==> old(counter).dog_count() < u64::MAX,
        v == VoteValue::Cats ==> old(counter).cat_count() < u64::MAX,
    ensures
        (final(counter).dog_count() as int, final(counter).cat_count() as int) == apply_vote(
            old(counter).dog_count() as int,
            old(counter).cat_count() as int,
            v,
        ),
        r.0 == action_for(v),
        page_matches(r.1, final(counter).dog_count(), final(counter).cat_count()),
{
    let action = match v {
        VoteValue::Reset => {
            counter.reset();
            StoreAction::DeleteAll
        },
        _ => {
            counter.increment(v);
            StoreAction::Insert(v)
        },
    };
    let (dogs, cats) = counter.snapshot();
    let page = page_model(dogs, cats);
    (action, page)
}

/// Builds the page data for the current tally without touching it: the
/// read-only path behind a plain page fetch.
pub fn render_current(counter: &VoteCounter) -> (p: PageModel)
    ensures
        page_matches(p, counter.dog_count(), counter.cat_count()),
{
    let (dogs, cats) = counter.snapshot();
    page_model(dogs, cats)
}

} // verus!
