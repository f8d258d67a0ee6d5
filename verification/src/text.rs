//! Text that crosses the driver boundary, and the decimal rendering of the
//! small numbers that identify a value.

use vstd::prelude::*;
use vstd::string::*;

verus! {

/// The character that stands for the digit `d`.
pub open spec fn digit(d: int) -> char
    recommends
        0 <= d < 10,
{
    if d == 0 {
        '0'
    } else if d == 1 {
        '1'
    } else if d == 2 {
        '2'
    } else if d == 3 {
        '3'
    } else if d == 4 {
        '4'
    } else if d == 5 {
        '5'
    } else if d == 6 {
        '6'
    } else if d == 7 {
        '7'
    } else if d == 8 {
        '8'
    } else {
        '9'
    }
}

/// The decimal numeral of `n`, most significant digit first, without
/// leading zeros.
pub open spec fn decimal(n: nat) -> Seq<char>
    decreases n,
{
    if n < 10 {
        seq![digit(n as int)]
    } else {
        decimal(n / 10).push(digit((n % 10) as int))
    }
}

/// What is left of a driver's text reply once an empty text counts as no
/// reply at all.
pub open spec fn non_empty_text(reply: Option<String>) -> Option<String> {
    match reply {
        Some(text) => if text@.len() == 0 {
            None
        } else {
            Some(text)
        },
        None => None,
    }
}

/// The one-character text of a digit.
fn digit_text(d: u8) -> (text: &'static str)
    requires
        d < 10,
    ensures
        text@ == seq![digit(d as int)],
{
    proof {
        reveal_strlit("0");
        reveal_strlit("1");
        reveal_strlit("2");
        reveal_strlit("3");
        reveal_strlit("4");
        reveal_strlit("5");
        reveal_strlit("6");
        reveal_strlit("7");
        reveal_strlit("8");
        reveal_strlit("9");
    }
    let text = if d == 0 {
        "0"
    } else if d == 1 {
        "1"
    } else if d == 2 {
        "2"
    } else if d == 3 {
        "3"
    } else if d == 4 {
        "4"
    } else if d == 5 {
        "5"
    } else if d == 6 {
        "6"
    } else if d == 7 {
        "7"
    } else if d == 8 {
        "8"
    } else {
        "9"
    };
    assert(text@ =~= seq![digit(d as int)]);
    text
}

/// Appends the decimal numeral of `n` to `out`.
pub fn push_decimal(out: &mut String, n: u8)
    ensures
        final(out)@ == old(out)@ + decimal(n as nat),
{
    let ghost before = out@;
    let hundreds: u8 = n / 100;
    let tens: u8 = (n / 10) % 10;
    let units: u8 = n % 10;
    proof {
        reveal_with_fuel(decimal, 3);
    }
    if n >= 100 {
        out.append(digit_text(hundreds));
        out.append(digit_text(tens));
        out.append(digit_text(units));
        assert(decimal(n as nat) =~= seq![
            digit(hundreds as int),
            digit(tens as int),
            digit(units as int),
        ]);
        assert(out@ =~= before + decimal(n as nat));
    } else if n >= 10 {
        out.append(digit_text(tens));
        out.append(digit_text(units));
        assert(decimal(n as nat) =~= seq![digit(tens as int), digit(units as int)]);
        assert(out@ =~= before + decimal(n as nat));
    } else {
        out.append(digit_text(units));
        assert(out@ =~= before + decimal(n as nat));
    }
}

/// Turns an empty text reply into no reply, as the driver means it.
pub fn non_empty(reply: Option<String>) -> (text: Option<String>)
    ensures
        text == non_empty_text(reply),
{
    match reply {
        Some(s) => {
            if s.as_str().is_empty() {
                None
            } else {
                Some(s)
            }
        },
        None => None,
    }
}

} // verus!
