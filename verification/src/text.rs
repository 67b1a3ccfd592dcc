//! Verified construction of the human-readable fragments that diagnostic
//! strings are made of: decimal renderings of integers and the two boolean
//! labels.

use vstd::prelude::*;
use vstd::string::StringExecFns;

verus! {

/// The character for a single decimal digit.
pub open spec fn digit_char(d: int) -> char {
    if d == 0 {
        '0'
    } else if d == 1 {
        '1'
    } else if d == 2 {
        '2'
    } else if d == 3 {
        '3'
    } else if d == 4 {
        '4'
    } else if d == 5 {
        '5'
    } else if d == 6 {
        '6'
    } else if d == 7 {
        '7'
    } else if d == 8 {
        '8'
    } else {
        '9'
    }
}

/// The decimal rendering of a number, most significant digit first, with no
/// leading zeroes (a single `'0'` for zero).
pub open spec fn dec_rep(n: nat) -> Seq<char>
    decreases n,
{
    if n < 10 {
        seq![digit_char(n as int)]
    } else {
        dec_rep(n / 10).push(digit_char((n % 10) as int))
    }
}

fn digit_string(d: u64) -> (s: String)
    requires
        d < 10,
    ensures
        s@ == seq![digit_char(d as int)],
{
    if d == 0 {
        let s = String::from_str("0");
        proof {
            reveal_strlit("0");
        }
        assert(s@ =~= seq![digit_char(d as int)]);
        s
    } else if d == 1 {
        let s = String::from_str("1");
        proof {
            reveal_strlit("1");
        }
        assert(s@ =~= seq![digit_char(d as int)]);
        s
    } else if d == 2 {
        let s = String::from_str("2");
        proof {
            reveal_strlit("2");
        }
        assert(s@ =~= seq![digit_char(d as int)]);
        s
    } else if d == 3 {
        let s = String::from_str("3");
        proof {
            reveal_strlit("3");
        }
        assert(s@ =~= seq![digit_char(d as int)]);
        s
    } else if d == 4 {
        let s = String::from_str("4");
        proof {
            reveal_strlit("4");
        }
        assert(s@ =~= seq![digit_char(d as int)]);
        s
    } else if d == 5 {
        let s = String::from_str("5");
        proof {
            reveal_strlit("5");
        }
        assert(s@ =~= seq![digit_char(d as int)]);
        s
    } else if d == 6 {
        let s = String::from_str("6");
        proof {
            reveal_strlit("6");
        }
        assert(s@ =~= seq![digit_char(d as int)]);
        s
    } else if d == 7 {
        let s = String::from_str("7");
        proof {
            reveal_strlit("7");
        }
        assert(s@ =~= seq![digit_char(d as int)]);
        s
    } else if d == 8 {
        let s = String::from_str("8");
        proof {
            reveal_strlit("8");
        }
        assert(s@ =~= seq![digit_char(d as int)]);
        s
    } else {
        let s = String::from_str("9");
        proof {
            reveal_strlit("9");
        }
        assert(s@ =~= seq![digit_char(d as int)]);
        s
    }
}

/// Renders a number in decimal.
pub fn u64_dec(n: u64) -> (s: String)
    ensures
        s@ == dec_rep(n as nat),
    decreases n,
{
    if n < 10 {
        digit_string(n)
    } else {
        let mut s = u64_dec(n / 10);
        let last = digit_string(n % 10);
        s.append(last.as_str());
        assert(s@ =~= dec_rep(n as nat));
        s
    }
}

/// The label a boolean carries in diagnostic text.
pub open spec fn bool_label(b: bool) -> Seq<char> {
    if b {
        "true"@
    } else {
        "false"@
    }
}

/// Renders a boolean as its label.
pub fn bool_string(b: bool) -> (s: String)
    ensures
        s@ == bool_label(b),
{
    if b {
        String::from_str("true")
    } else {
        String::from_str("false")
    }
}

} // verus!
