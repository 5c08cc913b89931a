//! The closed set of values a ballot can carry, and the parser that admits
//! exactly those values.

use vstd::prelude::*;

verus! {

/// One submitted ballot. `Dogs` and `Cats` are vote categories; `Reset` is a
/// command that clears the tally and the store, and is never persisted.
#[derive(Clone, Copy, Debug, PartialEq, Eq, Structural)]
pub enum VoteValue {
    Dogs,
    Cats,
    Reset,
}

impl VoteValue {
    /// The exact text this value is written as, both on the wire and in the
    /// persisted store.
    pub open spec fn spec_label(self) -> Seq<char> {
        match self {
            VoteValue::Dogs => "Dogs"@,
            VoteValue::Cats => "Cats"@,
            VoteValue::Reset => "Reset"@,
        }
    }

    /// Renders this value as its canonical text.
    pub fn label(&self) -> (r: String)
        ensures
            r@ == self.spec_label(),
    {
        match self {
            VoteValue::Dogs => "Dogs".to_owned(),
            VoteValue::Cats => "Cats".to_owned(),
            VoteValue::Reset => "Reset".to_owned(),
        }
    }
}

/// What the form field `vote` parses to: the three exact, case-sensitive
/// labels are accepted and nothing else is.
pub open spec fn spec_parse_vote(s: Seq<char>) -> Option<VoteValue> {
    if s == "Dogs"@ {
        Some(VoteValue::Dogs)
    } else if s == "Cats"@ {
        Some(VoteValue::Cats)
    } else if s == "Reset"@ {
        Some(VoteValue::Reset)
    } else {
        None
    }
}

/// Parses a submitted `vote` field. Exactly the three canonical labels are
/// accepted, case-sensitively; any other text is rejected, so a malformed
/// ballot never reaches the tally.
pub fn parse_vote(s: &str) -> (r: Option<VoteValue>)
    ensures
        r == spec_parse_vote(s@),
{
    let owned: String = s.to_owned();
    if owned == "Dogs".to_owned() {
        Some(VoteValue::Dogs)
    } else if owned == "Cats".to_owned() {
        Some(VoteValue::Cats)
    } else if owned == "Reset".to_owned() {
        Some(VoteValue::Reset)
    } else {
        None
    }
}

} // verus!
