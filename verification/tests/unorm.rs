use unorm::{Unorm, MAX32};

#[test]
fn construction() {
    assert_eq!(
        Unorm::from_denominator(2),
        Unorm::from_u32_repr((1 << 31) - 1)
    );
}

#[test]
fn mul() {
    assert_eq!(
        Unorm::from_denominator(4),
        Unorm::from_denominator(2) * Unorm::from_denominator(2)
    );

    // Equality is exact for this case: 3 divides 2^32 - 1 evenly, so no
    // truncation happens in either factor, and the scaled-down product
    // lands on the same representation as building 2/9 directly.
    assert_eq!(
        Unorm::from_rational(2, 9),
        Unorm::from_rational(1, 3) * Unorm::from_rational(2, 3)
    );

    assert_eq!(Unorm::one(), Unorm::one() * Unorm::one());
}

#[test]
fn from_denominator_matches_raw_quotient() {
    for d in [1u32, 2, 3, 4, 5, 7, 255, 256, 1 << 16, u32::MAX] {
        assert_eq!(Unorm::from_denominator(d), Unorm::from_u32_repr(MAX32 / d));
    }
}

#[test]
fn from_denominator_exact_values() {
    assert_eq!(Unorm::from_denominator(1), Unorm::one());
    assert_eq!(Unorm::from_denominator(3).to_u32_repr(), 1_431_655_765);
    assert_eq!(Unorm::from_denominator(4).to_u32_repr(), 1_073_741_823);
}

#[test]
fn from_rational_exact_values() {
    assert_eq!(Unorm::from_rational(0, 5), Unorm::zero());
    assert_eq!(Unorm::from_rational(5, 5), Unorm::one());
    assert_eq!(Unorm::from_rational(1, 3).to_u32_repr(), 1_431_655_765);
    assert_eq!(Unorm::from_rational(2, 3).to_u32_repr(), 2_863_311_530);
    assert_eq!(Unorm::from_rational(1, 2), Unorm::from_denominator(2));
}

#[test]
fn from_rational_monotonic() {
    // Non-decreasing in the nominator, for a fixed denominator.
    for n in 0u32..10 {
        assert!(Unorm::from_rational(n, 10) <= Unorm::from_rational(n + 1, 10));
    }
    // Non-increasing in the denominator, for a fixed nominator.
    for d in 3u32..13 {
        assert!(Unorm::from_rational(3, d + 1) <= Unorm::from_rational(3, d));
    }
}

#[test]
fn mul_zero_and_commutative() {
    let samples = [
        Unorm::zero(),
        Unorm::epsilon(),
        Unorm::from_denominator(3),
        Unorm::from_rational(2, 3),
        Unorm::one(),
    ];
    for &x in &samples {
        assert_eq!(Unorm::zero() * x, Unorm::zero());
        for &y in &samples {
            assert_eq!(x * y, y * x);
        }
    }
}

#[test]
fn mul_truncation_stays_within_one_ulp() {
    // 7 does not divide 2^32 - 1 evenly, so the factors themselves are
    // truncated; the composed product may then land one representation
    // step below building the rational directly, but never further.
    let composed = Unorm::from_rational(1, 7) * Unorm::from_rational(1, 3);
    let direct = Unorm::from_rational(1, 21);
    let delta = direct.to_u32_repr() as i64 - composed.to_u32_repr() as i64;
    assert!(delta.abs() <= 1);
}

#[test]
fn add_and_sub() {
    let a = Unorm::from_u32_repr(100);
    let b = Unorm::from_u32_repr(23);
    assert_eq!(a + b, Unorm::from_u32_repr(123));
    assert_eq!(a - b, Unorm::from_u32_repr(77));
    // Reference right-hand operands give the same results.
    assert_eq!(a + &b, Unorm::from_u32_repr(123));
    assert_eq!(a - &b, Unorm::from_u32_repr(77));
    assert_eq!(a * &b, a * b);
}

#[test]
fn compound_assignment() {
    let mut x = Unorm::from_u32_repr(1000);
    x.add_assign(Unorm::from_u32_repr(24));
    assert_eq!(x, Unorm::from_u32_repr(1024));
    x.sub_assign(Unorm::from_u32_repr(24));
    assert_eq!(x, Unorm::from_u32_repr(1000));
    let mut y = Unorm::from_denominator(2);
    y.mul_assign(Unorm::from_denominator(2));
    assert_eq!(y, Unorm::from_denominator(4));
}

#[test]
fn f64_round_trip_is_exact() {
    for r in [0u32, 1, 2, 1000, 1 << 20, (1 << 31) - 1, u32::MAX - 1, u32::MAX] {
        let u = Unorm::from_u32_repr(r);
        let through = u.to_u32_repr() as f64 / MAX32 as f64;
        let direct = r as f64 / MAX32 as f64;
        assert_eq!(through, direct);
    }
}

#[test]
fn ordering_agrees_with_f64() {
    let samples = [
        Unorm::zero(),
        Unorm::epsilon(),
        Unorm::from_denominator(1000),
        Unorm::from_denominator(3),
        Unorm::from_rational(2, 3),
        Unorm::one() - Unorm::epsilon(),
        Unorm::one(),
    ];
    for &a in &samples {
        for &b in &samples {
            let fa = a.to_u32_repr() as f64 / MAX32 as f64;
            let fb = b.to_u32_repr() as f64 / MAX32 as f64;
            assert_eq!(a < b, fa < fb);
            assert_eq!(a == b, fa == fb);
        }
    }
}

#[test]
fn boundary_values() {
    assert_eq!(Unorm::zero(), Unorm::min_value());
    assert_eq!(Unorm::one(), Unorm::max_value());
    assert_eq!(Unorm::epsilon(), Unorm::from_u32_repr(1));
    assert!(Unorm::zero() < Unorm::epsilon());
    // One step below one: the largest value smaller than ONE.
    let below_one = Unorm::one() - Unorm::epsilon();
    assert_eq!(below_one, Unorm::from_u32_repr(u32::MAX - 1));
    assert!(below_one < Unorm::one());
    // Adding the step back returns exactly to one.
    assert_eq!(below_one + Unorm::epsilon(), Unorm::one());
}
