//! Coarse human-readable durations: whole seconds, minutes or hours.

use vstd::prelude::*;

verus! {

/// The character of one decimal digit.
pub open spec fn digit_char(d: int) -> char {
    if d == 0 {
        '0'
    } else if d == 1 {
        '1'
    } else if d == 2 {
        '2'
    } else if d == 3 {
        '3'
    } else if d == 4 {
        '4'
    } else if d == 5 {
        '5'
    } else if d == 6 {
        '6'
    } else if d == 7 {
        '7'
    } else if d == 8 {
        '8'
    } else {
        '9'
    }
}

/// The decimal digits of a nonnegative number, most significant first.
pub open spec fn dec_digits(n: int) -> Seq<char>
    decreases n,
{
    if n < 10 {
        seq![digit_char(n)]
    } else {
        dec_digits(n / 10).push(digit_char(n % 10))
    }
}

/// A duration under a minute prints as whole seconds, under an hour as
/// whole minutes, and anything longer as whole hours, each with its unit
/// letter.
pub open spec fn human_duration_spec(secs: u64) -> Seq<char> {
    if secs < 60 {
        dec_digits(secs as int) + "s"@
    } else if secs < 3600 {
        dec_digits(secs as int / 60) + "m"@
    } else {
        dec_digits(secs as int / 3600) + "h"@
    }
}

/// The single-character string of one decimal digit.
fn digit_str(d: u64) -> (s: &'static str)
    requires
        d < 10,
    ensures
        s@ == seq![digit_char(d as int)],
{
    let s: &'static str = if d == 0 {
        proof {
            reveal_strlit("0");
        }
        "0"
    } else if d == 1 {
        proof {
            reveal_strlit("1");
        }
        "1"
    } else if d == 2 {
        proof {
            reveal_strlit("2");
        }
        "2"
    } else if d == 3 {
        proof {
            reveal_strlit("3");
        }
        "3"
    } else if d == 4 {
        proof {
            reveal_strlit("4");
        }
        "4"
    } else if d == 5 {
        proof {
            reveal_strlit("5");
        }
        "5"
    } else if d == 6 {
        proof {
            reveal_strlit("6");
        }
        "6"
    } else if d == 7 {
        proof {
            reveal_strlit("7");
        }
        "7"
    } else if d == 8 {
        proof {
            reveal_strlit("8");
        }
        "8"
    } else {
        proof {
            reveal_strlit("9");
        }
        "9"
    };
    proof {
        assert(s@ =~= seq![digit_char(d as int)]);
    }
    s
}

/// The decimal rendering of a nonnegative number.
fn dec_string(n: u64) -> (s: String)
    ensures
        s@ == dec_digits(n as int),
    decreases n,
{
    if n < 10 {
        String::from_str(digit_str(n))
    } else {
        let mut s = dec_string(n / 10);
        s.append(digit_str(n % 10));
        proof {
            assert(dec_digits(n as int / 10).push(digit_char(n as int % 10)) =~= dec_digits(
                n as int / 10,
            ) + seq![digit_char(n as int % 10)]);
        }
        s
    }
}

/// Renders a duration in seconds for the operator display: whole seconds
/// under a minute, else whole minutes under an hour, else whole hours.
pub fn secs_to_human(secs: u64) -> (r: String)
    ensures
        r@ == human_duration_spec(secs),
{
    if secs < 60 {
        dec_string(secs).concat("s")
    } else if secs < 3600 {
        dec_string(secs / 60).concat("m")
    } else {
        dec_string(secs / 3600).concat("h")
    }
}

} // verus!
