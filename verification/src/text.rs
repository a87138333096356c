//! Numbers and cuts of text, as the journal tool writes them.

use vstd::prelude::*;
use vstd::string::{StrSliceExecFns, StringExecFns};

verus! {

/// The character of the decimal digit `d`.
pub open spec fn digit_char(d: int) -> char
    recommends
        0 <= d <= 9,
{
    if d == 0 {
        '0'
    } else if d == 1 {
        '1'
    } else if d == 2 {
        '2'
    } else if d == 3 {
        '3'
    } else if d == 4 {
        '4'
    } else if d == 5 {
        '5'
    } else if d == 6 {
        '6'
    } else if d == 7 {
        '7'
    } else if d == 8 {
        '8'
    } else {
        '9'
    }
}

/// The decimal digits of `n`, without leading zeros.
pub open spec fn digits_of(n: nat) -> Seq<char>
    decreases n,
{
    if n < 10 {
        seq![digit_char(n as int)]
    } else {
        digits_of(n / 10).push(digit_char((n % 10) as int))
    }
}

/// `n` written in decimal, with a minus sign if it is negative.
pub open spec fn decimal_text(n: int) -> Seq<char> {
    if n < 0 {
        seq!['-'] + digits_of((-n) as nat)
    } else {
        digits_of(n as nat)
    }
}

/// The first `limit` characters of `text`, or all of it if it is shorter.
pub open spec fn summary_of(text: Seq<char>, limit: int) -> Seq<char> {
    if text.len() <= limit {
        text
    } else {
        text.take(limit)
    }
}

/// The digit `d` as text.
fn digit_text(d: u128) -> (s: &'static str)
    requires
        d <= 9,
    ensures
        s@ == seq![digit_char(d as int)],
{
    proof {
        reveal_strlit("0");
        reveal_strlit("1");
        reveal_strlit("2");
        reveal_strlit("3");
        reveal_strlit("4");
        reveal_strlit("5");
        reveal_strlit("6");
        reveal_strlit("7");
        reveal_strlit("8");
        reveal_strlit("9");
    }
    let s = if d == 0 {
        "0"
    } else if d == 1 {
        "1"
    } else if d == 2 {
        "2"
    } else if d == 3 {
        "3"
    } else if d == 4 {
        "4"
    } else if d == 5 {
        "5"
    } else if d == 6 {
        "6"
    } else if d == 7 {
        "7"
    } else if d == 8 {
        "8"
    } else {
        "9"
    };
    assert(s@ =~= seq![digit_char(d as int)]);
    s
}

/// Writes the digits of `n`.
fn digits(n: u128) -> (s: String)
    ensures
        s@ == digits_of(n as nat),
    decreases n,
{
    if n < 10 {
        String::from_str(digit_text(n))
    } else {
        let mut s = digits(n / 10);
        s.append(digit_text(n % 10));
        assert(s@ =~= digits_of(n as nat));
        s
    }
}

/// Writes `n` in decimal.
pub fn decimal(n: i128) -> (s: String)
    ensures
        s@ == decimal_text(n as int),
{
    if n >= 0 {
        digits(n as u128)
    } else {
        proof {
            reveal_strlit("-");
        }
        let magnitude: u128 = if n == i128::MIN {
            0x8000_0000_0000_0000_0000_0000_0000_0000
        } else {
            (-n) as u128
        };
        let rest = digits(magnitude);
        let s = String::from_str("-").concat(rest.as_str());
        assert(s@ =~= decimal_text(n as int));
        s
    }
}

/// The start of `text`: its first `limit` characters, or all of it if it
/// has no more.
pub fn summary(text: &str, limit: usize) -> (s: String)
    ensures
        s@ == summary_of(text@, limit as int),
{
    let length = text.unicode_len();
    if length <= limit {
        String::from_str(text)
    } else {
        let head = text.substring_char(0, limit);
        assert(head@ =~= text@.take(limit as int));
        String::from_str(head)
    }
}

} // verus!
