//! Numbers written out as text.
use vstd::prelude::*;
use vstd::string::StringExecFns;

verus! {

/// The character of a decimal digit.
pub open spec fn digit_char(d: nat) -> char {
    if d == 0 {
        '0'
    } else if d == 1 {
        '1'
    } else if d == 2 {
        '2'
    } else if d == 3 {
        '3'
    } else if d == 4 {
        '4'
    } else if d == 5 {
        '5'
    } else if d == 6 {
        '6'
    } else if d == 7 {
        '7'
    } else if d == 8 {
        '8'
    } else {
        '9'
    }
}

/// A number in decimal, without sign or leading zeros.
pub open spec fn decimal(n: nat) -> Seq<char>
    decreases n,
{
    if n < 10 {
        seq![digit_char(n)]
    } else {
        decimal(n / 10).push(digit_char(n % 10))
    }
}

fn digit_text(d: u64) -> (text: &'static str)
    requires
        d < 10,
    ensures
        text@ == seq![digit_char(d as nat)],
{
    proof {
        reveal_strlit("0");
        reveal_strlit("1");
        reveal_strlit("2");
        reveal_strlit("3");
        reveal_strlit("4");
        reveal_strlit("5");
        reveal_strlit("6");
        reveal_strlit("7");
        reveal_strlit("8");
        reveal_strlit("9");
    }
    let text = if d == 0 {
        "0"
    } else if d == 1 {
        "1"
    } else if d == 2 {
        "2"
    } else if d == 3 {
        "3"
    } else if d == 4 {
        "4"
    } else if d == 5 {
        "5"
    } else if d == 6 {
        "6"
    } else if d == 7 {
        "7"
    } else if d == 8 {
        "8"
    } else {
        "9"
    };
    assert(text@ =~= seq![digit_char(d as nat)]);
    text
}

/// The number written in decimal.
pub fn decimal_text(n: u64) -> (text: String)
    ensures
        text@ == decimal(n as nat),
    decreases n,
{
    if n < 10 {
        String::from_str(digit_text(n))
    } else {
        let mut text = decimal_text(n / 10);
        text.append(digit_text(n % 10));
        proof {
            assert(text@ =~= decimal((n / 10) as nat).push(digit_char((n % 10) as nat)));
        }
        text
    }
}

} // verus!
