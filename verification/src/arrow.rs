//! The SVG path string of an indicator arrow (throw indicator, wind arrow):
//! a horizontal shaft of the given length with a fixed arrow head, anchored
//! at half the nominal width and height.

use vstd::prelude::*;
use vstd::string::StringExecFns;

verus! {

/// The decimal digit character for a value below ten.
pub open spec fn digit_char(d: int) -> char {
    if d == 0 {
        '0'
    } else if d == 1 {
        '1'
    } else if d == 2 {
        '2'
    } else if d == 3 {
        '3'
    } else if d == 4 {
        '4'
    } else if d == 5 {
        '5'
    } else if d == 6 {
        '6'
    } else if d == 7 {
        '7'
    } else if d == 8 {
        '8'
    } else {
        '9'
    }
}

/// The decimal digits of a non-negative number, most significant first.
pub open spec fn dec_digits(n: int) -> Seq<char>
    decreases n,
{
    if n < 10 {
        seq![digit_char(n)]
    } else {
        dec_digits(n / 10).push(digit_char(n % 10))
    }
}

/// One decimal digit as a string slice.
fn digit_str(d: u32) -> (s: &'static str)
    requires
        d < 10,
    ensures
        s@ == seq![digit_char(d as int)],
{
    match d {
        0 => {
            proof {
                reveal_strlit("0");
                assert("0"@ =~= seq![digit_char(0int)]);
            }
            "0"
        },
        1 => {
            proof {
                reveal_strlit("1");
                assert("1"@ =~= seq![digit_char(1int)]);
            }
            "1"
        },
        2 => {
            proof {
                reveal_strlit("2");
                assert("2"@ =~= seq![digit_char(2int)]);
            }
            "2"
        },
        3 => {
            proof {
                reveal_strlit("3");
                assert("3"@ =~= seq![digit_char(3int)]);
            }
            "3"
        },
        4 => {
            proof {
                reveal_strlit("4");
                assert("4"@ =~= seq![digit_char(4int)]);
            }
            "4"
        },
        5 => {
            proof {
                reveal_strlit("5");
                assert("5"@ =~= seq![digit_char(5int)]);
            }
            "5"
        },
        6 => {
            proof {
                reveal_strlit("6");
                assert("6"@ =~= seq![digit_char(6int)]);
            }
            "6"
        },
        7 => {
            proof {
                reveal_strlit("7");
                assert("7"@ =~= seq![digit_char(7int)]);
            }
            "7"
        },
        8 => {
            proof {
                reveal_strlit("8");
                assert("8"@ =~= seq![digit_char(8int)]);
            }
            "8"
        },
        _ => {
            proof {
                reveal_strlit("9");
                assert("9"@ =~= seq![digit_char(9int)]);
            }
            "9"
        },
    }
}

/// Appends the decimal digits of `n` to the string.
fn push_dec(s: &mut String, n: u32)
    ensures
        final(s)@ == old(s)@ + dec_digits(n as int),
    decreases n,
{
    if n >= 10 {
        push_dec(s, n / 10);
        s.append(digit_str(n % 10));
        proof {
            assert(s@ =~= old(s)@ + dec_digits(n as int));
        }
    } else {
        s.append(digit_str(n));
        proof {
            assert(s@ =~= old(s)@ + dec_digits(n as int));
        }
    }
}

/// The arrow's SVG path: move to the anchor at half length and half height,
/// draw the shaft, then the fixed head, and close back along the shaft.
pub open spec fn arrow_path_spec(length: int, height: int) -> Seq<char> {
    "M "@ + dec_digits(length / 2) + " "@ + dec_digits(height / 2) + "h "@ + dec_digits(length)
        + " v -6 l 8 8 l -8 8 v -6 h -"@ + dec_digits(length) + " v -4"@
}

/// Builds the SVG path string for an arrow of the given shaft length and
/// nominal height, exactly as `arrow_path_spec` lays it out.
pub fn arrow_path(length: &u16, height: u16) -> (s: String)
    ensures
        s@ == arrow_path_spec(*length as int, height as int),
{
    let mut s = String::from_str("M ");
    push_dec(&mut s, (*length / 2) as u32);
    s.append(" ");
    push_dec(&mut s, (height / 2) as u32);
    s.append("h ");
    push_dec(&mut s, *length as u32);
    s.append(" v -6 l 8 8 l -8 8 v -6 h -");
    push_dec(&mut s, *length as u32);
    s.append(" v -4");
    proof {
        assert(s@ =~= arrow_path_spec(*length as int, height as int));
    }
    s
}

} // verus!
