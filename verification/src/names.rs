//! Decimal rendering for synthetic scope names, and the diagnostic text.

use vstd::prelude::*;
use vstd::string::StringExecFns;

verus! {

/// The character for one decimal digit.
pub open spec fn digit_char(d: nat) -> char {
    if d == 0 {
        '0'
    } else if d == 1 {
        '1'
    } else if d == 2 {
        '2'
    } else if d == 3 {
        '3'
    } else if d == 4 {
        '4'
    } else if d == 5 {
        '5'
    } else if d == 6 {
        '6'
    } else if d == 7 {
        '7'
    } else if d == 8 {
        '8'
    } else {
        '9'
    }
}

/// The decimal digits of `n`, most significant first.
pub open spec fn dec_str(n: nat) -> Seq<char>
    decreases n,
{
    if n < 10 {
        seq![digit_char(n)]
    } else {
        dec_str(n / 10).push(digit_char(n % 10))
    }
}

/// The message reported for an identifier that is used but never declared.
pub open spec fn undeclared_msg(name: Seq<char>) -> Seq<char> {
    "Variable "@ + name + " is not declared, but used."@
}

fn digit_str(d: u32) -> (r: &'static str)
    requires
        d < 10,
    ensures
        r@ == seq![digit_char(d as nat)],
{
    proof {
        reveal_strlit("0");
        reveal_strlit("1");
        reveal_strlit("2");
        reveal_strlit("3");
        reveal_strlit("4");
        reveal_strlit("5");
        reveal_strlit("6");
        reveal_strlit("7");
        reveal_strlit("8");
        reveal_strlit("9");
    }
    let r: &'static str = match d {
        0 => "0",
        1 => "1",
        2 => "2",
        3 => "3",
        4 => "4",
        5 => "5",
        6 => "6",
        7 => "7",
        8 => "8",
        _ => "9",
    };
    proof {
        assert(r@ =~= seq![digit_char(d as nat)]);
    }
    r
}

/// Renders `n` in decimal.
fn u32_to_dec(n: u32) -> (r: String)
    ensures
        r@ == dec_str(n as nat),
    decreases n,
{
    if n < 10 {
        digit_str(n).to_owned()
    } else {
        let mut s = u32_to_dec(n / 10);
        s.append(digit_str(n % 10));
        proof {
            assert(s@ =~= dec_str(n as nat));
        }
        s
    }
}

/// Builds a synthetic scope name: the prefix followed by the counter.
pub(crate) fn scope_name(prefix: &str, n: u32) -> (r: String)
    ensures
        r@ == prefix@ + dec_str(n as nat),
{
    let mut s = prefix.to_owned();
    let num = u32_to_dec(n);
    s.append(num.as_str());
    s
}

/// Builds the diagnostic text for an undeclared use of `name`.
pub(crate) fn make_undeclared_msg(name: &String) -> (r: String)
    ensures
        r@ == undeclared_msg(name@),
{
    let mut s = "Variable ".to_owned();
    s.append(name.as_str());
    s.append(" is not declared, but used.");
    proof {
        assert(s@ =~= undeclared_msg(name@));
    }
    s
}

} // verus!
