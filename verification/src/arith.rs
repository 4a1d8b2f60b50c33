//! Truncating division and remainder over mathematical integers, and
//! divisibility, as groundwork for the Euclidean reduction of fractions.
//!
//! In specifications `/` and `%` are Euclidean, while Rust's signed `/` and
//! `%` truncate toward zero. The spec functions here restate the truncating
//! operations over `int`, in the same shape as vstd's contracts for
//! `checked_div` and `checked_rem`, so that executable code over `i128` can
//! be related to them directly.

use vstd::prelude::*;

verus! {

/// Absolute value of a mathematical integer.
pub open spec fn abs(x: int) -> int {
    if x < 0 {
        -x
    } else {
        x
    }
}

/// Quotient of Rust's signed division, which truncates toward zero.
/// Meaningful only for `d != 0`.
pub open spec fn trunc_div(x: int, d: int) -> int {
    if x == 0 {
        0
    } else if x > 0 && d > 0 {
        x / d
    } else if x < 0 && d < 0 {
        (x * -1) / (d * -1)
    } else if x < 0 {
        ((x * -1) / d) * -1
    } else {
        (x / (d * -1)) * -1
    }
}

/// Remainder of Rust's signed division; it carries the sign of the
/// dividend. Meaningful only for `d != 0`.
pub open spec fn trunc_rem(x: int, d: int) -> int {
    if x == 0 {
        0
    } else if x > 0 && d > 0 {
        x % d
    } else if x < 0 && d < 0 {
        ((x * -1) % (d * -1)) * -1
    } else if x < 0 {
        ((x * -1) % d) * -1
    } else {
        x % (d * -1)
    }
}

/// `d` divides `n`.
pub open spec fn divides(d: int, n: int) -> bool {
    exists|k: int| n == #[trigger] (d * k)
}

/// Truncating division and remainder reassemble the dividend, and the
/// remainder is strictly smaller than the divisor in magnitude.
pub proof fn lemma_trunc_fundamental(x: int, d: int)
    requires
        d != 0,
    ensures
        x == d * trunc_div(x, d) + trunc_rem(x, d),
        abs(trunc_rem(x, d)) < abs(d),
{
    if x == 0 {
        assert(d * 0 == 0) by (nonlinear_arith);
    } else if x > 0 && d > 0 {
        vstd::arithmetic::div_mod::lemma_fundamental_div_mod(x, d);
        vstd::arithmetic::div_mod::lemma_mod_division_less_than_divisor(x, d);
    } else if x < 0 && d < 0 {
        vstd::arithmetic::div_mod::lemma_fundamental_div_mod(x * -1, d * -1);
        vstd::arithmetic::div_mod::lemma_mod_division_less_than_divisor(x * -1, d * -1);
        assert(x == d * ((x * -1) / (d * -1)) + ((x * -1) % (d * -1)) * -1) by (nonlinear_arith)
            requires
                x * -1 == (d * -1) * ((x * -1) / (d * -1)) + (x * -1) % (d * -1),
        ;
    } else if x < 0 {
        vstd::arithmetic::div_mod::lemma_fundamental_div_mod(x * -1, d);
        vstd::arithmetic::div_mod::lemma_mod_division_less_than_divisor(x * -1, d);
        assert(x == d * (((x * -1) / d) * -1) + ((x * -1) % d) * -1) by (nonlinear_arith)
            requires
                x * -1 == d * ((x * -1) / d) + (x * -1) % d,
        ;
    } else {
        vstd::arithmetic::div_mod::lemma_fundamental_div_mod(x, d * -1);
        vstd::arithmetic::div_mod::lemma_mod_division_less_than_divisor(x, d * -1);
        assert(x == d * ((x / (d * -1)) * -1) + x % (d * -1)) by (nonlinear_arith)
            requires
                x == (d * -1) * (x / (d * -1)) + x % (d * -1),
        ;
    }
}

/// Exhibiting a factor establishes divisibility.
pub proof fn lemma_divides_witness(d: int, k: int)
    ensures
        divides(d, d * k),
{
}

/// Everything divides zero, and zero divides only itself.
pub proof fn lemma_divides_zero(d: int)
    ensures
        divides(d, 0),
        divides(0, d) ==> d == 0,
{
    assert(0 == d * 0) by (nonlinear_arith);
    if divides(0, d) {
        let k = choose|k: int| d == #[trigger] (0 * k);
        assert(0 * k == 0) by (nonlinear_arith);
    }
}

/// Divisibility is closed under linear combination: if `d` divides `x` and
/// `y`, it divides `x + m * y`.
pub proof fn lemma_divides_linear(d: int, x: int, y: int, m: int)
    requires
        divides(d, x),
        divides(d, y),
    ensures
        divides(d, x + m * y),
{
    let kx = choose|k: int| x == #[trigger] (d * k);
    let ky = choose|k: int| y == #[trigger] (d * k);
    assert(x + m * y == d * (kx + m * ky)) by (nonlinear_arith)
        requires
            x == d * kx,
            y == d * ky,
    ;
}

/// A nonzero multiple is at least as large as its divisor in magnitude.
pub proof fn lemma_divides_abs_le(d: int, n: int)
    requires
        divides(d, n),
        n != 0,
    ensures
        abs(d) <= abs(n),
{
    let k = choose|k: int| n == #[trigger] (d * k);
    assert(k != 0) by (nonlinear_arith)
        requires
            n == d * k,
            n != 0,
    ;
    assert(abs(d) <= abs(d * k)) by (nonlinear_arith)
        requires
            k != 0,
    ;
}

/// When `d` divides `x` exactly, truncating division recovers the factor.
pub proof fn lemma_trunc_div_exact(x: int, d: int)
    requires
        d != 0,
        divides(d, x),
    ensures
        trunc_rem(x, d) == 0,
        d * trunc_div(x, d) == x,
{
    lemma_trunc_fundamental(x, d);
    let q = trunc_div(x, d);
    let r = trunc_rem(x, d);
    let k = choose|k: int| x == #[trigger] (d * k);
    if r != 0 {
        assert(r == d * (k - q)) by (nonlinear_arith)
            requires
                x == d * k,
                x == d * q + r,
        ;
        assert(k - q != 0) by (nonlinear_arith)
            requires
                r == d * (k - q),
                r != 0,
        ;
        assert(abs(d) <= abs(d * (k - q))) by (nonlinear_arith)
            requires
                k - q != 0,
        ;
        assert(false);
    }
}

/// The truncating quotient of a dividend in `i128` range stays in `i128`
/// range for every divisor except the single overflowing pair
/// `(i128::MIN, -1)`.
pub proof fn lemma_trunc_div_in_range(x: int, d: int)
    requires
        d != 0,
        i128::MIN <= x <= i128::MAX,
        !(x == i128::MIN && d == -1),
    ensures
        i128::MIN <= trunc_div(x, d) <= i128::MAX,
{
    if x == 0 {
    } else if x > 0 && d > 0 {
        vstd::arithmetic::div_mod::lemma_div_pos_is_pos(x, d);
        vstd::arithmetic::div_mod::lemma_div_nonincreasing(x, d);
    } else if x < 0 && d < 0 {
        vstd::arithmetic::div_mod::lemma_div_pos_is_pos(x * -1, d * -1);
        vstd::arithmetic::div_mod::lemma_div_nonincreasing(x * -1, d * -1);
        if x == i128::MIN {
            // d <= -2 here, so the quotient drops strictly below 2^127.
            vstd::arithmetic::div_mod::lemma_div_is_strictly_smaller(x * -1, d * -1);
        }
    } else if x < 0 {
        vstd::arithmetic::div_mod::lemma_div_pos_is_pos(x * -1, d);
        vstd::arithmetic::div_mod::lemma_div_nonincreasing(x * -1, d);
    } else {
        vstd::arithmetic::div_mod::lemma_div_pos_is_pos(x, d * -1);
        vstd::arithmetic::div_mod::lemma_div_nonincreasing(x, d * -1);
    }
}

/// The remainder itself is a linear combination of dividend and divisor, so
/// a common divisor of both also divides it; conversely a common divisor of
/// divisor and remainder divides the dividend.
pub proof fn lemma_trunc_rem_combo(x: int, d: int, c: int)
    requires
        d != 0,
    ensures
        divides(c, x) && divides(c, d) ==> divides(c, trunc_rem(x, d)),
        divides(c, d) && divides(c, trunc_rem(x, d)) ==> divides(c, x),
{
    lemma_trunc_fundamental(x, d);
    let q = trunc_div(x, d);
    let r = trunc_rem(x, d);
    if divides(c, x) && divides(c, d) {
        lemma_divides_linear(c, x, d, -q);
        assert(x + (-q) * d == r) by (nonlinear_arith)
            requires
                x == d * q + r,
        ;
    }
    if divides(c, d) && divides(c, r) {
        lemma_divides_linear(c, r, d, q);
        assert(r + q * d == x) by (nonlinear_arith)
            requires
                x == d * q + r,
        ;
    }
}

/// The magnitude of a power is the power of the magnitude.
pub proof fn lemma_abs_pow(b: int, e: nat)
    ensures
        abs(vstd::arithmetic::power::pow(b, e)) == vstd::arithmetic::power::pow(abs(b), e),
    decreases e,
{
    reveal(vstd::arithmetic::power::pow);
    if e != 0 {
        lemma_abs_pow(b, (e - 1) as nat);
        assert(abs(b * vstd::arithmetic::power::pow(b, (e - 1) as nat)) == abs(b) * abs(
            vstd::arithmetic::power::pow(b, (e - 1) as nat),
        )) by (nonlinear_arith);
    }
}

/// Every earlier power fits in `i128` when the final one does: powers of a
/// base of magnitude two or more grow strictly, and powers of a smaller
/// base never leave `{-1, 0, 1}`.
pub proof fn lemma_pow_fits(b: int, i: nat, e: nat)
    requires
        i <= e,
        i128::MIN <= vstd::arithmetic::power::pow(b, e) <= i128::MAX,
    ensures
        i128::MIN <= vstd::arithmetic::power::pow(b, i) <= i128::MAX,
{
    lemma_abs_pow(b, i);
    lemma_abs_pow(b, e);
    let ab = abs(b);
    if i == 0 {
        vstd::arithmetic::power::lemma_pow0(b);
    } else if ab == 0 {
        vstd::arithmetic::power::lemma0_pow(i);
    } else if ab == 1 {
        vstd::arithmetic::power::lemma1_pow(i);
    } else if i < e {
        vstd::arithmetic::power::lemma_pow_strictly_increases(ab as nat, i, e);
    }
}

} // verus!
