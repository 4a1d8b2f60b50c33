//! An exact rational value as a numerator/denominator pair over `i128`.
//!
//! The raw constructor stores the pair verbatim — a zero denominator or an
//! unreduced pair is allowed and kept as given. Only the reduced constructor
//! and the arithmetic operations that route through it divide the pair by
//! its greatest common divisor; the signs of the reduced pair are whatever
//! falls out of that division, with no normalization onto the numerator.
//! Equality is cross-multiplication, so reduced and unreduced
//! representations of the same rational value compare equal.
//!
//! All intermediate products of an operation must fit in `i128`, and the
//! reduction must not divide by zero; each operation's `requires` states
//! exactly those conditions, which are the caller's to meet.

use crate::arith::{
    abs, lemma_pow_fits, lemma_trunc_div_exact, lemma_trunc_div_in_range, lemma_trunc_fundamental,
    trunc_div, trunc_rem,
};
use crate::gcd::{gcd_int, lemma_gcd_divides, lemma_gcd_nonzero, lemma_gcd_quotients_coprime};
use vstd::prelude::*;

verus! {

/// An exact fraction: a numerator/denominator pair over `i128`, stored
/// exactly as constructed.
#[derive(Clone, Copy, Debug)]
pub struct Frac {
    pub numerator: i128,
    pub denominator: i128,
}

/// The Euclidean recursion computes `i128::MIN % -1`, which overflows, on
/// exactly two argument pairs; everything else is admitted.
pub open spec fn gcd_args_ok(a: int, b: int) -> bool {
    &&& !(a == i128::MIN && b == -1)
    &&& !(a == -1 && b == i128::MIN)
}

/// The pair `(n, d)` can be reduced by its greatest common divisor without
/// a division by zero (only `(0, 0)` fails that) and without `i128`
/// overflow in the gcd recursion or in the two final divisions.
pub open spec fn reducible(n: int, d: int) -> bool {
    &&& !(n == 0 && d == 0)
    &&& gcd_args_ok(n, d)
    &&& (gcd_int(n, d) == -1 ==> n != i128::MIN && d != i128::MIN)
}

/// The value fits in `i128`.
pub open spec fn fits_i128(x: int) -> bool {
    i128::MIN <= x <= i128::MAX
}

/// Cross-multiplication equality: `a/b == c/d` iff `a*d == b*c`, stated
/// over the pairs exactly as stored, reduced or not. This is the equality
/// of the fraction type.
pub open spec fn frac_eq(a: Frac, b: Frac) -> bool {
    a.num() * b.den() == a.den() * b.num()
}

/// Numerator of `a + b` before reduction: `a.num*b.den + a.den*b.num`.
pub open spec fn sum_num(a: Frac, b: Frac) -> int {
    a.num() * b.den() + a.den() * b.num()
}

/// Denominator of `a + b` (and of `a * b`) before reduction.
pub open spec fn sum_den(a: Frac, b: Frac) -> int {
    a.den() * b.den()
}

/// Numerator of `a * b` before reduction.
pub open spec fn prod_num(a: Frac, b: Frac) -> int {
    a.num() * b.num()
}

/// Denominator of `a * b` before reduction.
pub open spec fn prod_den(a: Frac, b: Frac) -> int {
    a.den() * b.den()
}

/// Numerator of `a / b` before reduction.
pub open spec fn quot_num(a: Frac, b: Frac) -> int {
    a.num() * b.den()
}

/// Denominator of `a / b` before reduction.
pub open spec fn quot_den(a: Frac, b: Frac) -> int {
    a.den() * b.num()
}

/// Both cross products of `a` and `b` fit in `i128`, so the two fractions
/// can be compared.
pub open spec fn eq_ok(a: Frac, b: Frac) -> bool {
    &&& fits_i128(a.num() * b.den())
    &&& fits_i128(a.den() * b.num())
}

/// The intermediate products and the sum of `a + b` fit in `i128`, and the
/// resulting pair can be reduced.
pub open spec fn add_ok(a: Frac, b: Frac) -> bool {
    &&& fits_i128(a.num() * b.den())
    &&& fits_i128(a.den() * b.num())
    &&& fits_i128(sum_num(a, b))
    &&& fits_i128(sum_den(a, b))
    &&& reducible(sum_num(a, b), sum_den(a, b))
}

/// Numerator of `a - b` before reduction, written as the sum with the
/// negated numerator of `b`, exactly as the subtraction computes it.
pub open spec fn diff_num(a: Frac, b: Frac) -> int {
    a.num() * b.den() + a.den() * (-b.num())
}

/// Subtraction is addition of the negation, so it asks for the negation to
/// exist and for that addition to be in range.
pub open spec fn sub_ok(a: Frac, b: Frac) -> bool {
    &&& b.num() != i128::MIN
    &&& fits_i128(a.num() * b.den())
    &&& fits_i128(a.den() * (-b.num()))
    &&& fits_i128(diff_num(a, b))
    &&& fits_i128(sum_den(a, b))
    &&& reducible(diff_num(a, b), sum_den(a, b))
}

/// The products of `a * b` fit in `i128`, and the resulting pair can be
/// reduced.
pub open spec fn mul_ok(a: Frac, b: Frac) -> bool {
    &&& fits_i128(prod_num(a, b))
    &&& fits_i128(prod_den(a, b))
    &&& reducible(prod_num(a, b), prod_den(a, b))
}

/// The cross products of `a / b` fit in `i128`, and the resulting pair can
/// be reduced. A divisor whose numerator is zero is rejected only when the
/// dividend's cross product is zero as well, exactly where the reduction
/// would divide by zero.
pub open spec fn div_ok(a: Frac, b: Frac) -> bool {
    &&& fits_i128(quot_num(a, b))
    &&& fits_i128(quot_den(a, b))
    &&& reducible(quot_num(a, b), quot_den(a, b))
}

/// Numerator after reducing the pair `(n, d)`.
pub open spec fn red_num(n: int, d: int) -> int {
    trunc_div(n, gcd_int(n, d))
}

/// Denominator after reducing the pair `(n, d)`.
pub open spec fn red_den(n: int, d: int) -> int {
    trunc_div(d, gcd_int(n, d))
}

impl Frac {
    /// The numerator as a mathematical integer.
    pub open spec fn num(self) -> int {
        self.numerator as int
    }

    /// The denominator as a mathematical integer.
    pub open spec fn den(self) -> int {
        self.denominator as int
    }

    /// Stores the pair verbatim: no validation, no reduction. A zero
    /// denominator or an unreduced pair is kept as given.
    pub fn new(numerator: i128, denominator: i128) -> (r: Self)
        ensures
            r.num() == numerator as int,
            r.den() == denominator as int,
    {
        Frac { numerator, denominator }
    }

    /// Greatest common divisor of two signed values by the recursive
    /// Euclidean algorithm, matching [`gcd_int`] exactly — including the
    /// sign of the result.
    pub fn gcd(a: i128, b: i128) -> (r: i128)
        requires
            gcd_args_ok(a as int, b as int),
        ensures
            r as int == gcd_int(a as int, b as int),
        decreases abs(b as int),
    {
        if b == 0 {
            a
        } else {
            let rem = a.checked_rem(b).unwrap();
            proof {
                lemma_trunc_fundamental(a as int, b as int);
                assert(rem as int == trunc_rem(a as int, b as int));
                if b == i128::MIN {
                    // rem is a itself (or 0 when a == i128::MIN), so the
                    // excluded pair (a, b) == (-1, i128::MIN) is the only
                    // way the recursive call could see (i128::MIN, -1).
                    if a != i128::MIN && a > 0 {
                        vstd::arithmetic::div_mod::lemma_small_mod(
                            a as nat,
                            (b as int * -1) as nat,
                        );
                    } else if a != i128::MIN && a < 0 {
                        vstd::arithmetic::div_mod::lemma_small_mod(
                            (a as int * -1) as nat,
                            (b as int * -1) as nat,
                        );
                    } else if a == i128::MIN {
                        vstd::arithmetic::div_mod::lemma_mod_self_0(b as int * -1);
                    }
                }
            }
            Self::gcd(b, rem)
        }
    }

    /// Divides the pair by its greatest common divisor and stores the two
    /// quotients, signs as they fall out of the truncating division.
    pub fn new_reduced(numerator: i128, denominator: i128) -> (r: Self)
        requires
            reducible(numerator as int, denominator as int),
        ensures
            r.num() == red_num(numerator as int, denominator as int),
            r.den() == red_den(numerator as int, denominator as int),
    {
        let g = Self::gcd(numerator, denominator);
        proof {
            lemma_gcd_nonzero(numerator as int, denominator as int);
            lemma_trunc_div_in_range(numerator as int, g as int);
            lemma_trunc_div_in_range(denominator as int, g as int);
        }
        let n = numerator.checked_div(g).unwrap();
        let d = denominator.checked_div(g).unwrap();
        Self::new(n, d)
    }

    /// Compares two fractions by cross-multiplication: `a/b == c/d` iff
    /// `a*d == b*c`. Reduced and unreduced representations of the same
    /// rational value compare equal.
    pub fn eq_frac(&self, other: &Frac) -> (r: bool)
        requires
            eq_ok(*self, *other),
        ensures
            r == frac_eq(*self, *other),
    {
        self.numerator * other.denominator == self.denominator * other.numerator
    }

    /// Negation: flips the numerator's sign and leaves the denominator's
    /// sign untouched.
    pub fn neg(self) -> (r: Self)
        requires
            self.num() != i128::MIN,
        ensures
            r.num() == -self.num(),
            r.den() == self.den(),
    {
        Frac { numerator: -self.numerator, denominator: self.denominator }
    }

    /// Addition: reduces `(a*d + b*c, b*d)` for `a/b + c/d`.
    pub fn add(self, rhs: Frac) -> (r: Self)
        requires
            add_ok(self, rhs),
        ensures
            r.num() == red_num(sum_num(self, rhs), sum_den(self, rhs)),
            r.den() == red_den(sum_num(self, rhs), sum_den(self, rhs)),
    {
        let n = self.numerator * rhs.denominator + self.denominator * rhs.numerator;
        let d = self.denominator * rhs.denominator;
        Self::new_reduced(n, d)
    }

    /// Subtraction: addition of the negation.
    pub fn sub(self, rhs: Frac) -> (r: Self)
        requires
            sub_ok(self, rhs),
        ensures
            r.num() == red_num(diff_num(self, rhs), sum_den(self, rhs)),
            r.den() == red_den(diff_num(self, rhs), sum_den(self, rhs)),
    {
        self.add(rhs.neg())
    }

    /// Multiplication: reduces `(a*c, b*d)` for `a/b * c/d`.
    pub fn mul(self, rhs: Frac) -> (r: Self)
        requires
            mul_ok(self, rhs),
        ensures
            r.num() == red_num(prod_num(self, rhs), prod_den(self, rhs)),
            r.den() == red_den(prod_num(self, rhs), prod_den(self, rhs)),
    {
        let n = self.numerator * rhs.numerator;
        let d = self.denominator * rhs.denominator;
        Self::new_reduced(n, d)
    }

    /// Division: reduces `(a*d, b*c)` for `(a/b) / (c/d)`. There is no
    /// zero-divisor check beyond what the reduction's precondition asks:
    /// a divisor with zero numerator is admitted whenever the dividend's
    /// cross product is nonzero, and the result then carries a zero
    /// denominator.
    pub fn div(self, rhs: Frac) -> (r: Self)
        requires
            div_ok(self, rhs),
        ensures
            r.num() == red_num(quot_num(self, rhs), quot_den(self, rhs)),
            r.den() == red_den(quot_num(self, rhs), quot_den(self, rhs)),
    {
        let n = self.numerator * rhs.denominator;
        let d = self.denominator * rhs.numerator;
        Self::new_reduced(n, d)
    }

    /// In-place addition: computes the full sum and replaces the value.
    pub fn add_assign(&mut self, rhs: Frac)
        requires
            add_ok(*old(self), rhs),
        ensures
            final(self).num() == red_num(sum_num(*old(self), rhs), sum_den(*old(self), rhs)),
            final(self).den() == red_den(sum_num(*old(self), rhs), sum_den(*old(self), rhs)),
    {
        *self = (*self).add(rhs);
    }

    /// In-place subtraction: computes the full difference and replaces the
    /// value.
    pub fn sub_assign(&mut self, rhs: Frac)
        requires
            sub_ok(*old(self), rhs),
        ensures
            final(self).num() == red_num(diff_num(*old(self), rhs), sum_den(*old(self), rhs)),
            final(self).den() == red_den(diff_num(*old(self), rhs), sum_den(*old(self), rhs)),
    {
        *self = (*self).sub(rhs);
    }

    /// In-place multiplication: computes the full product and replaces the
    /// value.
    pub fn mul_assign(&mut self, rhs: Frac)
        requires
            mul_ok(*old(self), rhs),
        ensures
            final(self).num() == red_num(prod_num(*old(self), rhs), prod_den(*old(self), rhs)),
            final(self).den() == red_den(prod_num(*old(self), rhs), prod_den(*old(self), rhs)),
    {
        *self = (*self).mul(rhs);
    }

    /// In-place division: computes the full quotient and replaces the
    /// value.
    pub fn div_assign(&mut self, rhs: Frac)
        requires
            div_ok(*old(self), rhs),
        ensures
            final(self).num() == red_num(quot_num(*old(self), rhs), quot_den(*old(self), rhs)),
            final(self).den() == red_den(quot_num(*old(self), rhs), quot_den(*old(self), rhs)),
    {
        *self = (*self).div(rhs);
    }

    /// Exponentiation by a non-negative integer exponent: raises numerator
    /// and denominator independently, with no reduction afterward.
    pub fn pow(self, exp: u32) -> (r: Self)
        requires
            fits_i128(vstd::arithmetic::power::pow(self.num(), exp as nat)),
            fits_i128(vstd::arithmetic::power::pow(self.den(), exp as nat)),
        ensures
            r.num() == vstd::arithmetic::power::pow(self.num(), exp as nat),
            r.den() == vstd::arithmetic::power::pow(self.den(), exp as nat),
    {
        proof {
            reveal(vstd::arithmetic::power::pow);
        }
        let mut n: i128 = 1;
        let mut d: i128 = 1;
        let mut i: u32 = 0;
        while i < exp
            invariant
                i <= exp,
                n as int == vstd::arithmetic::power::pow(self.num(), i as nat),
                d as int == vstd::arithmetic::power::pow(self.den(), i as nat),
                fits_i128(vstd::arithmetic::power::pow(self.num(), exp as nat)),
                fits_i128(vstd::arithmetic::power::pow(self.den(), exp as nat)),
            decreases exp - i,
        {
            proof {
                reveal(vstd::arithmetic::power::pow);
                lemma_pow_fits(self.num(), (i + 1) as nat, exp as nat);
                lemma_pow_fits(self.den(), (i + 1) as nat, exp as nat);
                assert(vstd::arithmetic::power::pow(self.num(), (i + 1) as nat) == self.num()
                    * vstd::arithmetic::power::pow(self.num(), i as nat));
                assert(vstd::arithmetic::power::pow(self.den(), (i + 1) as nat) == self.den()
                    * vstd::arithmetic::power::pow(self.den(), i as nat));
            }
            n = self.numerator * n;
            d = self.denominator * d;
            i = i + 1;
        }
        Frac { numerator: n, denominator: d }
    }

    /// The stored numerator.
    pub fn numerator(&self) -> (r: i128)
        ensures
            r as int == self.num(),
    {
        self.numerator
    }

    /// The stored denominator.
    pub fn denominator(&self) -> (r: i128)
        ensures
            r as int == self.den(),
    {
        self.denominator
    }
}

/// Reduction correctness: for any pair with a nonzero denominator, the
/// reduced pair is coprime — the gcd of its two entries has magnitude one —
/// and is equal, by cross-multiplication, to the pair it came from.
pub proof fn lemma_reduction_correct(n: int, d: int)
    requires
        d != 0,
    ensures
        abs(gcd_int(red_num(n, d), red_den(n, d))) == 1,
        red_num(n, d) * d == red_den(n, d) * n,
        red_den(n, d) != 0,
{
    let g = gcd_int(n, d);
    lemma_gcd_nonzero(n, d);
    lemma_gcd_divides(n, d);
    lemma_trunc_div_exact(n, g);
    lemma_trunc_div_exact(d, g);
    lemma_gcd_quotients_coprime(n, d);
    assert(red_num(n, d) * d == red_den(n, d) * n && red_den(n, d) != 0) by (nonlinear_arith)
        requires
            n == g * red_num(n, d),
            d == g * red_den(n, d),
            d != 0,
    ;
}

/// The reduction law on fraction values: a fraction `r` whose pair is the
/// reduction of `f`'s pair — as [`Frac::new_reduced`] ensures — holds a
/// coprime pair and compares equal to `f` by cross-multiplication.
pub proof fn lemma_new_reduced_eq_new(r: Frac, f: Frac)
    requires
        f.den() != 0,
        r.num() == red_num(f.num(), f.den()),
        r.den() == red_den(f.num(), f.den()),
    ensures
        frac_eq(r, f),
        abs(gcd_int(r.num(), r.den())) == 1,
        r.den() != 0,
{
    lemma_reduction_correct(f.num(), f.den());
}

/// Negation law: adding to a fraction its negation — numerator sign
/// flipped, denominator untouched — yields, after reduction, a fraction
/// with numerator zero, which equals `0/k` by cross-multiplication for
/// every nonzero `k`.
pub proof fn lemma_add_neg_zero(f: Frac, g: Frac, r: Frac, zero: Frac)
    requires
        f.den() != 0,
        g.num() == -f.num(),
        g.den() == f.den(),
        r.num() == red_num(sum_num(f, g), sum_den(f, g)),
        r.den() == red_den(sum_num(f, g), sum_den(f, g)),
        zero.num() == 0,
        zero.den() != 0,
    ensures
        sum_num(f, g) == 0,
        r.num() == 0,
        frac_eq(r, zero),
{
    let dd = sum_den(f, g);
    assert(sum_num(f, g) == 0 && dd != 0) by (nonlinear_arith)
        requires
            sum_num(f, g) == f.num() * g.den() + f.den() * g.num(),
            dd == f.den() * g.den(),
            g.num() == -f.num(),
            g.den() == f.den(),
            f.den() != 0,
    ;
    assert(trunc_rem(0, dd) == 0);
    assert(gcd_int(0, dd) == gcd_int(dd, 0));
    assert(red_num(0, dd) == trunc_div(0, dd));
    assert(r.num() == 0);
}

impl From<i128> for Frac {
    /// An integer `n` converts to the fraction `n/1`.
    fn from(value: i128) -> Self {
        Frac { numerator: value, denominator: 1 }
    }
}

impl vstd::std_specs::convert::FromSpecImpl<i128> for Frac {
    open spec fn obeys_from_spec() -> bool {
        true
    }

    open spec fn from_spec(value: i128) -> Frac {
        Frac { numerator: value, denominator: 1 }
    }
}

impl From<u128> for Frac {
    /// An integer `n` converts to the fraction `n/1`; a value beyond
    /// `i128::MAX` wraps, exactly as the cast to `i128` does.
    fn from(value: u128) -> Self {
        Frac { numerator: #[verifier::truncate] (value as i128), denominator: 1 }
    }
}

impl vstd::std_specs::convert::FromSpecImpl<u128> for Frac {
    open spec fn obeys_from_spec() -> bool {
        true
    }

    open spec fn from_spec(value: u128) -> Frac {
        Frac { numerator: value as i128, denominator: 1 }
    }
}

impl From<i64> for Frac {
    /// An integer `n` converts to the fraction `n/1`.
    fn from(value: i64) -> Self {
        Frac { numerator: value as i128, denominator: 1 }
    }
}

impl vstd::std_specs::convert::FromSpecImpl<i64> for Frac {
    open spec fn obeys_from_spec() -> bool {
        true
    }

    open spec fn from_spec(value: i64) -> Frac {
        Frac { numerator: value as i128, denominator: 1 }
    }
}

impl From<i32> for Frac {
    /// An integer `n` converts to the fraction `n/1`.
    fn from(value: i32) -> Self {
        Frac { numerator: value as i128, denominator: 1 }
    }
}

impl vstd::std_specs::convert::FromSpecImpl<i32> for Frac {
    open spec fn obeys_from_spec() -> bool {
        true
    }

    open spec fn from_spec(value: i32) -> Frac {
        Frac { numerator: value as i128, denominator: 1 }
    }
}

impl From<i16> for Frac {
    /// An integer `n` converts to the fraction `n/1`.
    fn from(value: i16) -> Self {
        Frac { numerator: value as i128, denominator: 1 }
    }
}

impl vstd::std_specs::convert::FromSpecImpl<i16> for Frac {
    open spec fn obeys_from_spec() -> bool {
        true
    }

    open spec fn from_spec(value: i16) -> Frac {
        Frac { numerator: value as i128, denominator: 1 }
    }
}

impl From<i8> for Frac {
    /// An integer `n` converts to the fraction `n/1`.
    fn from(value: i8) -> Self {
        Frac { numerator: value as i128, denominator: 1 }
    }
}

impl vstd::std_specs::convert::FromSpecImpl<i8> for Frac {
    open spec fn obeys_from_spec() -> bool {
        true
    }

    open spec fn from_spec(value: i8) -> Frac {
        Frac { numerator: value as i128, denominator: 1 }
    }
}

impl From<u64> for Frac {
    /// An integer `n` converts to the fraction `n/1`.
    fn from(value: u64) -> Self {
        Frac { numerator: value as i128, denominator: 1 }
    }
}

impl vstd::std_specs::convert::FromSpecImpl<u64> for Frac {
    open spec fn obeys_from_spec() -> bool {
        true
    }

    open spec fn from_spec(value: u64) -> Frac {
        Frac { numerator: value as i128, denominator: 1 }
    }
}

impl From<u32> for Frac {
    /// An integer `n` converts to the fraction `n/1`.
    fn from(value: u32) -> Self {
        Frac { numerator: value as i128, denominator: 1 }
    }
}

impl vstd::std_specs::convert::FromSpecImpl<u32> for Frac {
    open spec fn obeys_from_spec() -> bool {
        true
    }

    open spec fn from_spec(value: u32) -> Frac {
        Frac { numerator: value as i128, denominator: 1 }
    }
}

impl From<u16> for Frac {
    /// An integer `n` converts to the fraction `n/1`.
    fn from(value: u16) -> Self {
        Frac { numerator: value as i128, denominator: 1 }
    }
}

impl vstd::std_specs::convert::FromSpecImpl<u16> for Frac {
    open spec fn obeys_from_spec() -> bool {
        true
    }

    open spec fn from_spec(value: u16) -> Frac {
        Frac { numerator: value as i128, denominator: 1 }
    }
}

impl From<u8> for Frac {
    /// An integer `n` converts to the fraction `n/1`.
    fn from(value: u8) -> Self {
        Frac { numerator: value as i128, denominator: 1 }
    }
}

impl vstd::std_specs::convert::FromSpecImpl<u8> for Frac {
    open spec fn obeys_from_spec() -> bool {
        true
    }

    open spec fn from_spec(value: u8) -> Frac {
        Frac { numerator: value as i128, denominator: 1 }
    }
}

} // verus!
