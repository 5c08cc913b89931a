//! The data the page template is rendered from: the fixed labels and the two
//! counter values written in decimal. Rendering itself is the template
//! engine's job outside this crate; what reaches it is pinned down here,
//! including the exact decimal text of each counter.

use vstd::prelude::*;

verus! {

/// The decimal digit character for `d`.
pub open spec fn digit_char(d: int) -> char {
    if d == 0 {
        '0'
    } else if d == 1 {
        '1'
    } else if d == 2 {
        '2'
    } else if d == 3 {
        '3'
    } else if d == 4 {
        '4'
    } else if d == 5 {
        '5'
    } else if d == 6 {
        '6'
    } else if d == 7 {
        '7'
    } else if d == 8 {
        '8'
    } else {
        '9'
    }
}

/// The usual decimal writing of `n`: no sign, no leading zero except for the
/// one-digit number 0 itself.
pub open spec fn dec_rep(n: nat) -> Seq<char>
    decreases n,
{
    if n < 10 {
        seq![digit_char(n as int)]
    } else {
        dec_rep(n / 10).push(digit_char((n % 10) as int))
    }
}

/// The one-character string for a single decimal digit.
fn digit_str(d: u64) -> (r: &'static str)
    requires
        d < 10,
    ensures
        r@ == seq![digit_char(d as int)],
{
    let r: &'static str = match d {
        0 => "0",
        1 => "1",
        2 => "2",
        3 => "3",
        4 => "4",
        5 => "5",
        6 => "6",
        7 => "7",
        8 => "8",
        _ => "9",
    };
    proof {
        reveal_strlit("0");
        reveal_strlit("1");
        reveal_strlit("2");
        reveal_strlit("3");
        reveal_strlit("4");
        reveal_strlit("5");
        reveal_strlit("6");
        reveal_strlit("7");
        reveal_strlit("8");
        reveal_strlit("9");
        assert(r@ =~= seq![digit_char(d as int)]);
    }
    r
}

/// Writes `n` in decimal.
pub fn u64_to_dec(n: u64) -> (s: String)
    ensures
        s@ == dec_rep(n as nat),
    decreases n,
{
    if n < 10 {
        digit_str(n).to_owned()
    } else {
        proof {
            assert(n / 10 < n) by (nonlinear_arith)
                requires
                    n >= 10,
            ;
        }
        let mut s = u64_to_dec(n / 10);
        s.append(digit_str(n % 10));
        proof {
            assert(s@ =~= dec_rep(n as nat));
        }
        s
    }
}

/// Everything the page template is handed: the page title, the two button
/// labels, and the two counter values as decimal text.
pub struct PageModel {
    pub title: String,
    pub button1: String,
    pub button2: String,
    pub value1: String,
    pub value2: String,
}

/// `p` is exactly the page data for the tally `(dogs, cats)`.
pub open spec fn page_matches(p: PageModel, dogs: u64, cats: u64) -> bool {
    &&& p.title@ == "Azure Voting App"@
    &&& p.button1@ == "Dogs"@
    &&& p.button2@ == "Cats"@
    &&& p.value1@ == dec_rep(dogs as nat)
    &&& p.value2@ == dec_rep(cats as nat)
}

/// Builds the page data for the tally `(dogs, cats)`.
pub fn page_model(dogs: u64, cats: u64) -> (p: PageModel)
    ensures
        page_matches(p, dogs, cats),
{
    PageModel {
        title: "Azure Voting App".to_owned(),
        button1: "Dogs".to_owned(),
        button2: "Cats".to_owned(),
        value1: u64_to_dec(dogs),
        value2: u64_to_dec(cats),
    }
}

} // verus!
