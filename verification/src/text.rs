//! Decimal and hexadecimal renderings of integers, and the textual forms of
//! flags, used to describe formats as text.
use vstd::prelude::*;
use vstd::string::StringExecFns;

verus! {

/// The character of digit `d`, upper case beyond 9.
pub open spec fn digit_char(d: nat) -> char {
    if d < 10 {
        (48 + d) as char
    } else {
        (55 + d) as char
    }
}

/// `n` written in base `b`, most significant digit first, without leading
/// zeros (`0` is written `0`).
pub open spec fn digits(n: nat, b: nat) -> Seq<char>
    decreases n,
{
    if b <= 1 || n < b {
        seq![digit_char(n)]
    } else {
        proof {
            assert(n / b < n) by (nonlinear_arith)
                requires
                    n >= b,
                    b > 1,
            ;
        }
        digits(n / b, b).push(digit_char(n % b))
    }
}

/// `n` in decimal, as `{}` formats it.
pub open spec fn decimal(n: nat) -> Seq<char> {
    digits(n, 10)
}

/// `n` in upper-case hexadecimal, as `{:X}` formats it.
pub open spec fn hex(n: nat) -> Seq<char> {
    digits(n, 16)
}

/// `b` as `{}` formats it.
pub open spec fn bool_text(b: bool) -> Seq<char> {
    if b {
        "true"@
    } else {
        "false"@
    }
}

/// The text of digit `d` (below 16).
fn digit_str(d: u64) -> (r: &'static str)
    requires
        d < 16,
    ensures
        r@ == seq![digit_char(d as nat)],
{
    match d {
        0 => {
            proof {
                reveal_strlit("0");
            }
            "0"
        },
        1 => {
            proof {
                reveal_strlit("1");
            }
            "1"
        },
        2 => {
            proof {
                reveal_strlit("2");
            }
            "2"
        },
        3 => {
            proof {
                reveal_strlit("3");
            }
            "3"
        },
        4 => {
            proof {
                reveal_strlit("4");
            }
            "4"
        },
        5 => {
            proof {
                reveal_strlit("5");
            }
            "5"
        },
        6 => {
            proof {
                reveal_strlit("6");
            }
            "6"
        },
        7 => {
            proof {
                reveal_strlit("7");
            }
            "7"
        },
        8 => {
            proof {
                reveal_strlit("8");
            }
            "8"
        },
        9 => {
            proof {
                reveal_strlit("9");
            }
            "9"
        },
        10 => {
            proof {
                reveal_strlit("A");
            }
            "A"
        },
        11 => {
            proof {
                reveal_strlit("B");
            }
            "B"
        },
        12 => {
            proof {
                reveal_strlit("C");
            }
            "C"
        },
        13 => {
            proof {
                reveal_strlit("D");
            }
            "D"
        },
        14 => {
            proof {
                reveal_strlit("E");
            }
            "E"
        },
        _ => {
            proof {
                reveal_strlit("F");
            }
            "F"
        },
    }
}

/// Appends `n` written in base `b` to `s`.
fn push_digits(s: &mut String, n: u64, b: u64)
    requires
        2 <= b <= 16,
    ensures
        final(s)@ == old(s)@ + digits(n as nat, b as nat),
    decreases n,
{
    if n < b {
        s.append(digit_str(n));
    } else {
        assert(n / b < n) by (nonlinear_arith)
            requires
                n >= b,
                b >= 2,
        ;
        push_digits(s, n / b, b);
        s.append(digit_str(n % b));
        assert(digits(n as nat, b as nat) == digits((n / b) as nat, b as nat).push(
            digit_char((n % b) as nat),
        ));
        assert(old(s)@ + digits((n / b) as nat, b as nat) + seq![digit_char((n % b) as nat)]
            =~= old(s)@ + digits(n as nat, b as nat));
    }
}

/// Formats an integer in decimal, as `format!("{}", n)` does.
pub(crate) fn decimal_string(n: u64) -> (r: String)
    ensures
        r@ == decimal(n as nat),
{
    let mut s = String::new();
    push_digits(&mut s, n, 10);
    assert(s@ =~= decimal(n as nat));
    s
}

/// Formats an integer in upper-case hexadecimal, as `format!("{:X}", n)`
/// does.
pub(crate) fn hex_string(n: u64) -> (r: String)
    ensures
        r@ == hex(n as nat),
{
    let mut s = String::new();
    push_digits(&mut s, n, 16);
    assert(s@ =~= hex(n as nat));
    s
}

/// A boolean as text.
pub fn bool_str(b: bool) -> (r: &'static str)
    ensures
        r@ == bool_text(b),
{
    if b {
        "true"
    } else {
        "false"
    }
}

} // verus!
