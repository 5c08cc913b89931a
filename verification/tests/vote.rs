use vote_tally::vote::{parse_vote, VoteValue};

#[test]
fn parse_accepts_exactly_the_three_labels() {
    assert_eq!(parse_vote("Dogs"), Some(VoteValue::Dogs));
    assert_eq!(parse_vote("Cats"), Some(VoteValue::Cats));
    assert_eq!(parse_vote("Reset"), Some(VoteValue::Reset));
}

#[test]
fn parse_is_case_sensitive() {
    assert_eq!(parse_vote("dogs"), None);
    assert_eq!(parse_vote("DOGS"), None);
    assert_eq!(parse_vote("cats"), None);
    assert_eq!(parse_vote("reset"), None);
}

#[test]
fn parse_rejects_everything_else() {
    assert_eq!(parse_vote(""), None);
    assert_eq!(parse_vote(" Dogs"), None);
    assert_eq!(parse_vote("Dogs "), None);
    assert_eq!(parse_vote("Dog"), None);
    assert_eq!(parse_vote("CatsCats"), None);
    assert_eq!(parse_vote("Birds"), None);
}

#[test]
fn labels_round_trip_through_parse() {
    for v in [VoteValue::Dogs, VoteValue::Cats, VoteValue::Reset] {
        assert_eq!(parse_vote(&v.label()), Some(v));
    }
}

#[test]
fn labels_are_the_canonical_text() {
    assert_eq!(VoteValue::Dogs.label(), "Dogs");
    assert_eq!(VoteValue::Cats.label(), "Cats");
    assert_eq!(VoteValue::Reset.label(), "Reset");
}
