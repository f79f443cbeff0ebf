//! Numbers written in decimal, as they stand in the addresses of the API.

use vstd::prelude::*;
use vstd::string::StringExecFns;

verus! {

/// The decimal digit with the value `d`.
pub open spec fn digit_of(d: int) -> char
    recommends
        0 <= d < 10,
{
    seq!['0', '1', '2', '3', '4', '5', '6', '7', '8', '9'][d]
}

/// The decimal digits of `n`, most significant first, without leading zeros.
pub open spec fn digits_of(n: nat) -> Seq<char>
    decreases n,
{
    if n < 10 {
        seq![digit_of(n as int)]
    } else {
        digits_of(n / 10).push(digit_of((n % 10) as int))
    }
}

/// The decimal text of `n`: its digits, after a minus sign where `n` is
/// negative.
pub open spec fn decimal_of(n: int) -> Seq<char> {
    if n < 0 {
        seq!['-'] + digits_of((-n) as nat)
    } else {
        digits_of(n as nat)
    }
}

/// The text of one decimal digit.
fn digit_text(d: u64) -> (text: &'static str)
    requires
        d < 10,
    ensures
        text@ == seq![digit_of(d as int)],
{
    proof {
        reveal_strlit("0");
        reveal_strlit("1");
        reveal_strlit("2");
        reveal_strlit("3");
        reveal_strlit("4");
        reveal_strlit("5");
        reveal_strlit("6");
        reveal_strlit("7");
        reveal_strlit("8");
        reveal_strlit("9");
    }
    let text = match d {
        0 => "0",
        1 => "1",
        2 => "2",
        3 => "3",
        4 => "4",
        5 => "5",
        6 => "6",
        7 => "7",
        8 => "8",
        _ => "9",
    };
    assert(text@ =~= seq![digit_of(d as int)]);
    text
}

/// Write the digits of `n` behind `text`.
fn append_digits(text: &mut String, n: u64)
    ensures
        final(text)@ == old(text)@ + digits_of(n as nat),
    decreases n,
{
    if n >= 10 {
        append_digits(text, n / 10);
    }
    text.append(digit_text(n % 10));
}

/// Write `n` in decimal, with a minus sign before a negative number and no
/// other padding.
pub fn decimal_text(n: i32) -> (text: String)
    ensures
        text@ == decimal_of(n as int),
{
    if n < 0 {
        let mut text = "-".to_owned();
        proof {
            reveal_strlit("-");
        }
        append_digits(&mut text, (-(n as i64)) as u64);
        text
    } else {
        let mut text = String::new();
        append_digits(&mut text, n as u64);
        text
    }
}

} // verus!
