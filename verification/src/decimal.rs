//! Decimal rendering of unsigned numbers into strings.
//!
//! The registry synthesizes placeholder tab names such as `Tab 3`, and the
//! status line prints pane identities, so the library needs a verified
//! number-to-text routine with an exact character-level specification.

use vstd::prelude::*;
use vstd::string::StringExecFns;

verus! {

/// The character for one decimal digit.
pub open spec fn digit_char(d: nat) -> char
    recommends
        d < 10,
{
    if d == 0 {
        '0'
    } else if d == 1 {
        '1'
    } else if d == 2 {
        '2'
    } else if d == 3 {
        '3'
    } else if d == 4 {
        '4'
    } else if d == 5 {
        '5'
    } else if d == 6 {
        '6'
    } else if d == 7 {
        '7'
    } else if d == 8 {
        '8'
    } else {
        '9'
    }
}

/// The decimal digits of `n`, most significant first, with no leading
/// zeros (a single `'0'` for zero itself).
pub open spec fn decimal_digits(n: nat) -> Seq<char>
    decreases n,
{
    if n < 10 {
        seq![digit_char(n)]
    } else {
        decimal_digits(n / 10).push(digit_char(n % 10))
    }
}

/// Append the character of one decimal digit to `s`.
fn push_digit(s: &mut String, d: u8)
    requires
        d < 10,
    ensures
        final(s)@ == old(s)@.push(digit_char(d as nat)),
{
    match d {
        0 => {
            proof {
                reveal_strlit("0");
                assert(old(s)@ + "0"@ =~= old(s)@.push(digit_char(0)));
            }
            s.append("0");
        },
        1 => {
            proof {
                reveal_strlit("1");
                assert(old(s)@ + "1"@ =~= old(s)@.push(digit_char(1)));
            }
            s.append("1");
        },
        2 => {
            proof {
                reveal_strlit("2");
                assert(old(s)@ + "2"@ =~= old(s)@.push(digit_char(2)));
            }
            s.append("2");
        },
        3 => {
            proof {
                reveal_strlit("3");
                assert(old(s)@ + "3"@ =~= old(s)@.push(digit_char(3)));
            }
            s.append("3");
        },
        4 => {
            proof {
                reveal_strlit("4");
                assert(old(s)@ + "4"@ =~= old(s)@.push(digit_char(4)));
            }
            s.append("4");
        },
        5 => {
            proof {
                reveal_strlit("5");
                assert(old(s)@ + "5"@ =~= old(s)@.push(digit_char(5)));
            }
            s.append("5");
        },
        6 => {
            proof {
                reveal_strlit("6");
                assert(old(s)@ + "6"@ =~= old(s)@.push(digit_char(6)));
            }
            s.append("6");
        },
        7 => {
            proof {
                reveal_strlit("7");
                assert(old(s)@ + "7"@ =~= old(s)@.push(digit_char(7)));
            }
            s.append("7");
        },
        8 => {
            proof {
                reveal_strlit("8");
                assert(old(s)@ + "8"@ =~= old(s)@.push(digit_char(8)));
            }
            s.append("8");
        },
        _ => {
            proof {
                reveal_strlit("9");
                assert(old(s)@ + "9"@ =~= old(s)@.push(digit_char(9)));
            }
            s.append("9");
        },
    }
}

/// Append the decimal rendering of `n` to `s`.
pub fn append_decimal(s: &mut String, n: u64)
    ensures
        final(s)@ == old(s)@ + decimal_digits(n as nat),
    decreases n,
{
    if n < 10 {
        push_digit(s, n as u8);
        proof {
            assert(old(s)@.push(digit_char(n as nat)) =~= old(s)@ + decimal_digits(n as nat));
        }
    } else {
        append_decimal(s, n / 10);
        push_digit(s, (n % 10) as u8);
        proof {
            assert((old(s)@ + decimal_digits((n / 10) as nat)).push(digit_char((n % 10) as nat))
                =~= old(s)@ + decimal_digits(n as nat));
        }
    }
}

/// The decimal rendering of `n` on its own.
pub fn decimal_string(n: u64) -> (r: String)
    ensures
        r@ == decimal_digits(n as nat),
{
    let mut s = String::new();
    append_decimal(&mut s, n);
    proof {
        assert(Seq::<char>::empty() + decimal_digits(n as nat) =~= decimal_digits(n as nat));
    }
    s
}

} // verus!
