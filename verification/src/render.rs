//! Textual rendering of a fraction: `numerator/denominator`, both in
//! decimal, exactly as stored — no simplification and no sign
//! normalization at render time.

use crate::fraction::Frac;
use vstd::prelude::*;
use vstd::string::StringExecFns;

verus! {

/// The decimal digit character for a value below ten.
pub open spec fn digit_char(d: nat) -> char
    recommends
        d < 10,
{
    if d == 0 {
        '0'
    } else if d == 1 {
        '1'
    } else if d == 2 {
        '2'
    } else if d == 3 {
        '3'
    } else if d == 4 {
        '4'
    } else if d == 5 {
        '5'
    } else if d == 6 {
        '6'
    } else if d == 7 {
        '7'
    } else if d == 8 {
        '8'
    } else {
        '9'
    }
}

/// The decimal digits of a natural number, most significant first, with no
/// leading zero except for the number zero itself.
pub open spec fn dec_digits(n: nat) -> Seq<char>
    decreases n,
{
    if n < 10 {
        seq![digit_char(n)]
    } else {
        dec_digits(n / 10).push(digit_char(n % 10))
    }
}

/// The decimal rendering of a signed value: a leading minus sign for
/// negative values, then the digits of the magnitude.
pub open spec fn dec_str(v: int) -> Seq<char> {
    if v < 0 {
        seq!['-'] + dec_digits((-v) as nat)
    } else {
        dec_digits(v as nat)
    }
}

/// The rendering of a fraction: numerator, a slash, denominator.
pub open spec fn frac_str(f: Frac) -> Seq<char> {
    dec_str(f.num()) + seq!['/'] + dec_str(f.den())
}

/// Appends the character of one decimal digit.
fn push_digit(s: &mut String, d: u8)
    requires
        d < 10,
    ensures
        final(s)@ == old(s)@ + seq![digit_char(d as nat)],
{
    if d == 0 {
        proof {
            reveal_strlit("0");
            assert(("0")@ =~= seq![digit_char(0nat)]);
        }
        s.append("0");
    } else if d == 1 {
        proof {
            reveal_strlit("1");
            assert(("1")@ =~= seq![digit_char(1nat)]);
        }
        s.append("1");
    } else if d == 2 {
        proof {
            reveal_strlit("2");
            assert(("2")@ =~= seq![digit_char(2nat)]);
        }
        s.append("2");
    } else if d == 3 {
        proof {
            reveal_strlit("3");
            assert(("3")@ =~= seq![digit_char(3nat)]);
        }
        s.append("3");
    } else if d == 4 {
        proof {
            reveal_strlit("4");
            assert(("4")@ =~= seq![digit_char(4nat)]);
        }
        s.append("4");
    } else if d == 5 {
        proof {
            reveal_strlit("5");
            assert(("5")@ =~= seq![digit_char(5nat)]);
        }
        s.append("5");
    } else if d == 6 {
        proof {
            reveal_strlit("6");
            assert(("6")@ =~= seq![digit_char(6nat)]);
        }
        s.append("6");
    } else if d == 7 {
        proof {
            reveal_strlit("7");
            assert(("7")@ =~= seq![digit_char(7nat)]);
        }
        s.append("7");
    } else if d == 8 {
        proof {
            reveal_strlit("8");
            assert(("8")@ =~= seq![digit_char(8nat)]);
        }
        s.append("8");
    } else {
        proof {
            reveal_strlit("9");
            assert(("9")@ =~= seq![digit_char(9nat)]);
        }
        s.append("9");
    }
}

/// Appends the decimal digits of an unsigned value, most significant
/// first.
fn push_digits(s: &mut String, x: u128)
    ensures
        final(s)@ == old(s)@ + dec_digits(x as nat),
    decreases x,
{
    if x < 10 {
        push_digit(s, x as u8);
    } else {
        push_digits(s, x / 10);
        push_digit(s, (x % 10) as u8);
        proof {
            assert(final(s)@ =~= old(s)@ + dec_digits(x as nat));
        }
    }
}

/// Appends the decimal rendering of a signed value.
fn push_signed(s: &mut String, v: i128)
    ensures
        final(s)@ == old(s)@ + dec_str(v as int),
{
    if v >= 0 {
        push_digits(s, v as u128);
    } else {
        proof {
            reveal_strlit("-");
            assert(("-")@ =~= seq!['-']);
        }
        s.append("-");
        // The magnitude of i128::MIN does not fit in i128, so step through
        // v + 1 before widening.
        let m: u128 = ((-(v + 1)) as u128) + 1;
        push_digits(s, m);
        proof {
            assert(final(s)@ =~= old(s)@ + dec_str(v as int));
        }
    }
}

impl Frac {
    /// Renders the fraction as `numerator/denominator`, both in decimal,
    /// exactly as stored.
    pub fn render(&self) -> (r: String)
        ensures
            r@ == frac_str(*self),
    {
        let mut s = String::new();
        push_signed(&mut s, self.numerator);
        proof {
            reveal_strlit("/");
            assert(("/")@ =~= seq!['/']);
        }
        s.append("/");
        push_signed(&mut s, self.denominator);
        proof {
            assert(s@ =~= frac_str(*self));
        }
        s
    }
}

} // verus!
