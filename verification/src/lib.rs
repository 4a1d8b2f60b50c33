//! Exact rational arithmetic over `i128` numerator/denominator pairs.
//!
//! A [`fraction::Frac`] stores the pair verbatim; reduction by the greatest
//! common divisor happens only in the reduced constructor and in the
//! arithmetic operations that route through it. Equality between fractions
//! is cross-multiplication, so differently-reduced representations of the
//! same rational value compare equal.

pub mod arith;
pub mod fraction;
pub mod gcd;
pub mod render;
