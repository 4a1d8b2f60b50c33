//! The Euclidean greatest common divisor over mathematical integers, in the
//! same recursive shape as the executable algorithm: `gcd(a, 0) = a`, else
//! `gcd(a, b) = gcd(b, a rem b)` with the truncating remainder.
//!
//! The recursion is run on signed values as they stand, so the result's sign
//! follows the last nonzero value of the remainder chain; its magnitude is
//! the usual greatest common divisor. The lemmas here establish the three
//! facts the fraction type needs: the result divides both arguments, every
//! common divisor divides the result, and the result is zero only on
//! `(0, 0)`.

use crate::arith::{
    abs, divides, lemma_divides_abs_le, lemma_divides_witness, lemma_divides_zero,
    lemma_trunc_div_exact, lemma_trunc_fundamental, lemma_trunc_rem_combo, trunc_div, trunc_rem,
};
use vstd::prelude::*;

verus! {

/// Greatest common divisor by the Euclidean algorithm on signed values.
pub open spec fn gcd_int(a: int, b: int) -> int
    decreases abs(b),
        via gcd_int_decreases
{
    if b == 0 {
        a
    } else {
        gcd_int(b, trunc_rem(a, b))
    }
}

#[via_fn]
proof fn gcd_int_decreases(a: int, b: int) {
    if b != 0 {
        lemma_trunc_fundamental(a, b);
    }
}

/// The greatest common divisor divides both of its arguments.
pub proof fn lemma_gcd_divides(a: int, b: int)
    ensures
        divides(gcd_int(a, b), a),
        divides(gcd_int(a, b), b),
    decreases abs(b),
{
    if b == 0 {
        lemma_divides_witness(a, 1);
        assert(a * 1 == a) by (nonlinear_arith);
        lemma_divides_zero(a);
    } else {
        lemma_trunc_fundamental(a, b);
        lemma_gcd_divides(b, trunc_rem(a, b));
        lemma_trunc_rem_combo(a, b, gcd_int(a, b));
    }
}

/// Every common divisor of the arguments divides the greatest common
/// divisor.
pub proof fn lemma_gcd_greatest(a: int, b: int, c: int)
    requires
        divides(c, a),
        divides(c, b),
    ensures
        divides(c, gcd_int(a, b)),
    decreases abs(b),
{
    if b == 0 {
    } else {
        lemma_trunc_fundamental(a, b);
        lemma_trunc_rem_combo(a, b, c);
        lemma_gcd_greatest(b, trunc_rem(a, b), c);
    }
}

/// The greatest common divisor vanishes only on `(0, 0)`.
pub proof fn lemma_gcd_nonzero(a: int, b: int)
    requires
        a != 0 || b != 0,
    ensures
        gcd_int(a, b) != 0,
    decreases abs(b),
{
    if b == 0 {
    } else {
        lemma_trunc_fundamental(a, b);
        lemma_gcd_nonzero(b, trunc_rem(a, b));
    }
}

/// Dividing both arguments by their greatest common divisor leaves a
/// coprime pair: the gcd of the two quotients has magnitude one.
pub proof fn lemma_gcd_quotients_coprime(a: int, b: int)
    requires
        a != 0 || b != 0,
    ensures
        abs(gcd_int(trunc_div(a, gcd_int(a, b)), trunc_div(b, gcd_int(a, b)))) == 1,
{
    let g = gcd_int(a, b);
    lemma_gcd_nonzero(a, b);
    lemma_gcd_divides(a, b);
    let qa = trunc_div(a, g);
    let qb = trunc_div(b, g);
    lemma_trunc_div_exact(a, g);
    lemma_trunc_div_exact(b, g);
    let h = gcd_int(qa, qb);
    lemma_gcd_divides(qa, qb);
    // h != 0 because the quotients are not both zero.
    if a != 0 {
        assert(qa != 0) by (nonlinear_arith)
            requires
                a == g * qa,
                a != 0,
        ;
        lemma_gcd_nonzero(qa, qb);
    } else {
        assert(qb != 0) by (nonlinear_arith)
            requires
                b == g * qb,
                b != 0,
        ;
        lemma_gcd_nonzero(qa, qb);
    }
    // g * h divides a and b, hence divides g; so |h| <= 1.
    let kqa = choose|k: int| qa == #[trigger] (h * k);
    assert(a == (g * h) * kqa) by (nonlinear_arith)
        requires
            a == g * qa,
            qa == h * kqa,
    ;
    lemma_divides_witness(g * h, kqa);
    let kqb = choose|k: int| qb == #[trigger] (h * k);
    assert(b == (g * h) * kqb) by (nonlinear_arith)
        requires
            b == g * qb,
            qb == h * kqb,
    ;
    lemma_divides_witness(g * h, kqb);
    lemma_gcd_greatest(a, b, g * h);
    lemma_divides_abs_le(g * h, g);
    assert(abs(h) == 1) by (nonlinear_arith)
        requires
            abs(g * h) <= abs(g),
            g != 0,
            h != 0,
    ;
}

} // verus!
