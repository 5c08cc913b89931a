use vote_tally::counter::VoteCounter;
use vote_tally::store::StoreModel;
use vote_tally::vote::VoteValue;

#[test]
fn fresh_tally_is_zero() {
    let c = VoteCounter::new();
    assert_eq!(c.snapshot(), (0, 0));
}

#[test]
fn category_isolation_interleaved() {
    // Three dog votes and two cat votes, interleaved: the snapshot is (3, 2).
    let mut c = VoteCounter::new();
    c.increment(VoteValue::Dogs);
    c.increment(VoteValue::Cats);
    c.increment(VoteValue::Dogs);
    c.increment(VoteValue::Cats);
    c.increment(VoteValue::Dogs);
    assert_eq!(c.snapshot(), (3, 2));
}

#[test]
fn reset_is_absolute() {
    let mut c = VoteCounter::from_counts(41, 7);
    c.increment(VoteValue::Dogs);
    c.reset();
    assert_eq!(c.snapshot(), (0, 0));

    // The paired truncation leaves both store counts at zero as well.
    let mut st = StoreModel::new();
    st.insert(VoteValue::Dogs);
    st.insert(VoteValue::Cats);
    st.delete_all();
    assert_eq!(st.count_by_value(VoteValue::Dogs), 0);
    assert_eq!(st.count_by_value(VoteValue::Cats), 0);
    assert_eq!(st.len(), 0);
}

#[test]
fn snapshot_is_idempotent() {
    let mut c = VoteCounter::new();
    c.increment(VoteValue::Cats);
    c.increment(VoteValue::Dogs);
    let first = c.snapshot();
    let second = c.snapshot();
    let third = c.snapshot();
    assert_eq!(first, second);
    assert_eq!(second, third);
    assert_eq!(first, (1, 1));
}

#[test]
fn seed_matches_prepopulated_store() {
    // A store holding 2 dog rows and 3 cat rows seeds a (2, 3) tally.
    let mut st = StoreModel::new();
    st.insert(VoteValue::Dogs);
    st.insert(VoteValue::Cats);
    st.insert(VoteValue::Cats);
    st.insert(VoteValue::Dogs);
    st.insert(VoteValue::Cats);
    let dogs = st.count_by_value(VoteValue::Dogs) as u64;
    let cats = st.count_by_value(VoteValue::Cats) as u64;
    let c = VoteCounter::from_counts(dogs, cats);
    assert_eq!(c.snapshot(), (2, 3));
}

#[test]
fn increment_leaves_other_counter_alone() {
    let mut c = VoteCounter::from_counts(10, 20);
    c.increment(VoteValue::Dogs);
    assert_eq!(c.snapshot(), (11, 20));
    c.increment(VoteValue::Cats);
    assert_eq!(c.snapshot(), (11, 21));
}
