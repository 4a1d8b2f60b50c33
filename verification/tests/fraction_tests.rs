use fraction::fraction::Frac;

#[test]
fn test_add() {
    let mut s1 = Frac::from(0);
    for i in 2..20 {
        s1.add_assign(Frac::new(1, i));
    }
    let ans = Frac::new(197698279, 77597520);
    assert!(ans.eq_frac(&s1));
}

#[test]
fn test_pow() {
    let mut s2 = Frac::new(1, 3);
    s2 = s2.pow(5);
    let ans = 1.0 / 243.0;
    assert_eq!(ans, (s2.numerator() as f64) / (s2.denominator() as f64));
}

#[test]
fn new_stores_verbatim() {
    let f = Frac::new(6, -4);
    assert_eq!(f.numerator(), 6);
    assert_eq!(f.denominator(), -4);
    let z = Frac::new(0, 0);
    assert_eq!(z.numerator(), 0);
    assert_eq!(z.denominator(), 0);
}

#[test]
fn gcd_follows_signs() {
    assert_eq!(Frac::gcd(12, 18), 6);
    assert_eq!(Frac::gcd(-6, 4), -2);
    assert_eq!(Frac::gcd(0, 5), 5);
    assert_eq!(Frac::gcd(5, 0), 5);
    assert_eq!(Frac::gcd(0, -5), -5);
}

#[test]
fn reduction_yields_coprime_pair() {
    let r = Frac::new_reduced(6, 4);
    assert_eq!(r.numerator(), 3);
    assert_eq!(r.denominator(), 2);
    assert!(r.eq_frac(&Frac::new(6, 4)));
}

#[test]
fn reduction_sign_falls_out_of_division() {
    let r = Frac::new_reduced(-6, 4);
    assert_eq!(r.numerator(), 3);
    assert_eq!(r.denominator(), -2);
    assert!(r.eq_frac(&Frac::new(-6, 4)));
    assert!(r.eq_frac(&Frac::new(-3, 2)));
}

#[test]
fn equality_is_cross_multiplication() {
    assert!(Frac::new(1, 2).eq_frac(&Frac::new(2, 4)));
    assert!(Frac::new(1, -2).eq_frac(&Frac::new(-1, 2)));
    assert!(!Frac::new(1, 2).eq_frac(&Frac::new(2, 3)));
    assert!(Frac::new(0, 5).eq_frac(&Frac::new(0, -9)));
}

#[test]
fn add_reduces_the_sum() {
    let s = Frac::new(1, 2).add(Frac::new(1, 3));
    assert_eq!(s.numerator(), 5);
    assert_eq!(s.denominator(), 6);
    let t = Frac::new(1, 4).add(Frac::new(1, 4));
    assert_eq!(t.numerator(), 1);
    assert_eq!(t.denominator(), 2);
}

#[test]
fn sub_is_addition_of_negation() {
    let d = Frac::new(1, 2).sub(Frac::new(1, 3));
    assert_eq!(d.numerator(), 1);
    assert_eq!(d.denominator(), 6);
}

#[test]
fn mul_reduces_the_product() {
    let p = Frac::new(2, 3).mul(Frac::new(3, 4));
    assert_eq!(p.numerator(), 1);
    assert_eq!(p.denominator(), 2);
}

#[test]
fn div_reduces_the_cross_products() {
    let q = Frac::new(1, 2).div(Frac::new(3, 4));
    assert_eq!(q.numerator(), 2);
    assert_eq!(q.denominator(), 3);
}

#[test]
fn div_by_zero_numerator_with_nonzero_dividend() {
    // The reduction divides by gcd(1, 0) == 1, so no fault arises and the
    // zero denominator is carried through.
    let q = Frac::new(1, 2).div(Frac::new(0, 1));
    assert_eq!(q.numerator(), 1);
    assert_eq!(q.denominator(), 0);
}

#[test]
fn assign_variants_replace_the_value() {
    let mut f = Frac::new(1, 2);
    f.add_assign(Frac::new(1, 3));
    assert_eq!((f.numerator(), f.denominator()), (5, 6));
    f.sub_assign(Frac::new(1, 3));
    assert_eq!((f.numerator(), f.denominator()), (1, 2));
    f.mul_assign(Frac::new(2, 5));
    assert_eq!((f.numerator(), f.denominator()), (1, 5));
    f.div_assign(Frac::new(1, 5));
    assert_eq!((f.numerator(), f.denominator()), (1, 1));
}

#[test]
fn neg_flips_only_the_numerator() {
    let f = Frac::new(3, -4).neg();
    assert_eq!(f.numerator(), -3);
    assert_eq!(f.denominator(), -4);
}

#[test]
fn adding_the_negation_gives_zero() {
    let f = Frac::new(3, 4);
    let s = f.add(f.neg());
    assert_eq!(s.numerator(), 0);
    assert!(s.eq_frac(&Frac::new(0, 7)));
    assert!(s.eq_frac(&Frac::new(0, -1)));
}

#[test]
fn from_integer_gives_over_one() {
    let f = Frac::from(-7i64);
    assert_eq!((f.numerator(), f.denominator()), (-7, 1));
    let g = Frac::from(200u8);
    assert_eq!((g.numerator(), g.denominator()), (200, 1));
    let h = Frac::from(1u64 << 40);
    assert_eq!((h.numerator(), h.denominator()), (1i128 << 40, 1));
}

#[test]
fn from_u128_wraps_like_the_cast() {
    let f = Frac::from(u128::MAX);
    assert_eq!((f.numerator(), f.denominator()), (-1, 1));
    let g = Frac::from(7u128);
    assert_eq!((g.numerator(), g.denominator()), (7, 1));
}

#[test]
fn integer_operands_work_on_either_side() {
    // An integer operand becomes the fraction n/1 first, on whichever side
    // it stands.
    let left = Frac::from(2).sub(Frac::new(1, 2));
    assert_eq!((left.numerator(), left.denominator()), (3, 2));
    // gcd(-3, 2) comes out as -1, so both signs flip in the reduction.
    let right = Frac::new(1, 2).sub(Frac::from(2));
    assert_eq!((right.numerator(), right.denominator()), (3, -2));
    let scaled = Frac::from(3u16).mul(Frac::new(1, 6));
    assert_eq!((scaled.numerator(), scaled.denominator()), (1, 2));
}

#[test]
fn from_round_trips_through_float() {
    assert_eq!((Frac::from(0).numerator() as f64) / (Frac::from(0).denominator() as f64), 0.0);
    let n: i64 = -123456789;
    let f = Frac::from(n);
    assert_eq!((f.numerator() as f64) / (f.denominator() as f64), n as f64);
    let m: u32 = 4294967295;
    let g = Frac::from(m);
    assert_eq!((g.numerator() as f64) / (g.denominator() as f64), m as f64);
}

#[test]
fn pow_raises_both_parts_without_reducing() {
    let f = Frac::new(2, 4).pow(3);
    assert_eq!((f.numerator(), f.denominator()), (8, 64));
    let unit = Frac::new(5, 7).pow(0);
    assert_eq!((unit.numerator(), unit.denominator()), (1, 1));
}

#[test]
fn render_is_verbatim() {
    assert_eq!(Frac::new(-3, 4).render(), "-3/4");
    assert_eq!(Frac::new(6, -4).render(), "6/-4");
    assert_eq!(Frac::new(0, 0).render(), "0/0");
    assert_eq!(Frac::new(197698279, 77597520).render(), "197698279/77597520");
    assert_eq!(
        Frac::new(i128::MIN, i128::MAX).render(),
        "-170141183460469231731687303715884105728/170141183460469231731687303715884105727"
    );
}
