//! Symbols and pre-translated strings that badges display.
use vstd::prelude::*;

verus! {

/// Prefix of an addition, and the symbol of a new entry.
pub const ADD_SYMBOL: &'static str = "+";

/// Prefix of a change, and the symbol of an updated entry.
pub const CHANGE_SYMBOL: &'static str = "Δ";

/// Symbol of a removed entry.
pub const REMOVAL_SYMBOL: &'static str = "x";

pub open spec fn add_symbol() -> Seq<char> {
    seq!['+']
}

pub open spec fn change_symbol() -> Seq<char> {
    seq!['Δ']
}

pub open spec fn removal_symbol() -> Seq<char> {
    seq!['x']
}

pub open spec fn new_tooltip_text() -> Seq<char> {
    seq!['N', 'e', 'w']
}

pub open spec fn updated_tooltip_text() -> Seq<char> {
    seq!['U', 'p', 'd', 'a', 't', 'e', 'd']
}

pub open spec fn removed_tooltip_text() -> Seq<char> {
    seq!['R', 'e', 'm', 'o', 'v', 'e', 'd']
}

/// Tooltip of a new entry.
pub fn new_tooltip() -> (r: String)
    ensures
        r@ == new_tooltip_text(),
{
    proof {
        reveal_strlit("New");
    }
    String::from_str("New")
}

/// Tooltip of an updated entry.
pub fn updated_tooltip() -> (r: String)
    ensures
        r@ == updated_tooltip_text(),
{
    proof {
        reveal_strlit("Updated");
    }
    String::from_str("Updated")
}

/// Tooltip of a removed entry.
pub fn removed_tooltip() -> (r: String)
    ensures
        r@ == removed_tooltip_text(),
{
    proof {
        reveal_strlit("Removed");
    }
    String::from_str("Removed")
}

/// The decimal digit `d`.
pub open spec fn digit_char(d: nat) -> char {
    if d == 0 { '0' } else if d == 1 { '1' } else if d == 2 { '2' } else if d == 3 { '3' }
    else if d == 4 { '4' } else if d == 5 { '5' } else if d == 6 { '6' } else if d == 7 { '7' }
    else if d == 8 { '8' } else { '9' }
}

/// The decimal notation of `n`, without sign or leading zeros.
pub open spec fn decimal(n: nat) -> Seq<char>
    decreases n,
{
    if n < 10 {
        seq![digit_char(n)]
    } else {
        decimal(n / 10).push(digit_char(n % 10))
    }
}

fn digit_str(d: usize) -> (r: &'static str)
    requires
        d < 10,
    ensures
        r@ == seq![digit_char(d as nat)],
{
    if d == 0 {
        proof {
            reveal_strlit("0");
        }
        "0"
    } else if d == 1 {
        proof {
            reveal_strlit("1");
        }
        "1"
    } else if d == 2 {
        proof {
            reveal_strlit("2");
        }
        "2"
    } else if d == 3 {
        proof {
            reveal_strlit("3");
        }
        "3"
    } else if d == 4 {
        proof {
            reveal_strlit("4");
        }
        "4"
    } else if d == 5 {
        proof {
            reveal_strlit("5");
        }
        "5"
    } else if d == 6 {
        proof {
            reveal_strlit("6");
        }
        "6"
    } else if d == 7 {
        proof {
            reveal_strlit("7");
        }
        "7"
    } else if d == 8 {
        proof {
            reveal_strlit("8");
        }
        "8"
    } else {
        proof {
            reveal_strlit("9");
        }
        "9"
    }
}

/// Writes `n` in decimal.
pub fn decimal_string(n: usize) -> (r: String)
    ensures
        r@ == decimal(n as nat),
    decreases n,
{
    if n < 10 {
        String::from_str(digit_str(n))
    } else {
        let mut s = decimal_string(n / 10);
        s.append(digit_str(n % 10));
        s
    }
}

/// `prefix` followed by `count` in decimal, as in "+7".
pub fn prefixed_count(prefix: &str, count: usize) -> (r: String)
    ensures
        r@ == prefix@ + decimal(count as nat),
{
    let mut s = String::from_str(prefix);
    let digits = decimal_string(count);
    s.append(digits.as_str());
    s
}

} // verus!
