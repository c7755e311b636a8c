use simd_float_math::{atan2_branch, atan2_branch_lanes, Atan2Branch};
use std::f64::consts::{FRAC_PI_2, FRAC_PI_4, PI};

/// `atan2(y, x)` through the library's branch choice, with std's `atan` in
/// place of the folded polynomial.
fn atan2(y: f64, x: f64) -> f64 {
    compose(atan2_branch(y.to_bits(), x.to_bits()), y, x)
}

fn compose(branch: Atan2Branch, y: f64, x: f64) -> f64 {
    match branch {
        Atan2Branch::Direct => (y / x).atan(),
        Atan2Branch::PlusPi => (y / x).atan() + PI,
        Atan2Branch::MinusPi => (y / x).atan() - PI,
        Atan2Branch::HalfPi => FRAC_PI_2,
        Atan2Branch::MinusHalfPi => -FRAC_PI_2,
        Atan2Branch::Undefined => f64::NAN,
    }
}

#[test]
fn test_atan2_simd() {
    let x: [f64; 8] = [
        -3.040346321204024,
        -7.777732768220749,
        0.0,
        0.0,
        8.027398490685906,
        2.7258759638490715,
        1.031443408365491,
        9.780589683514657,
    ];
    let y: [f64; 8] = [
        3.4337362961327833,
        0.0,
        -3.9420415247878404,
        6.9871321446290535,
        0.0,
        -8.517577704672803,
        -2.9815685286318883,
        -9.880496852312818,
    ];

    let y_std: Vec<_> = x.iter().zip(&y).map(|(x, y)| y.atan2(*x)).collect();

    let branches = atan2_branch_lanes(&y.map(f64::to_bits), &x.map(f64::to_bits));
    for i in 0..8 {
        assert_eq!(branches[i], atan2_branch(y[i].to_bits(), x[i].to_bits()));
        let v = compose(branches[i], y[i], x[i]);
        assert!((v - y_std[i]).abs() <= 1e-12, "lane {i}: {v} vs {}", y_std[i]);
    }
}

#[test]
fn atan2_special_values() {
    assert!((atan2(1.0, 1.0) - FRAC_PI_4).abs() <= 1e-9);
    assert_eq!(atan2(1.0, 0.0), FRAC_PI_2);
    assert_eq!(atan2(-1.0, 0.0), -FRAC_PI_2);
    assert!(atan2(0.0, 0.0).is_nan());
}

#[test]
fn atan2_branches() {
    let b = |y: f64, x: f64| atan2_branch(y.to_bits(), x.to_bits());
    assert_eq!(b(1.0, 1.0), Atan2Branch::Direct);
    assert_eq!(b(-1.0, 2.0), Atan2Branch::Direct);
    assert_eq!(b(1.0, -1.0), Atan2Branch::PlusPi);
    assert_eq!(b(0.0, -1.0), Atan2Branch::PlusPi);
    assert_eq!(b(-1.0, -1.0), Atan2Branch::MinusPi);
    assert_eq!(b(-0.0, -1.0), Atan2Branch::MinusPi);
    assert_eq!(b(1.0, f64::NAN), Atan2Branch::PlusPi);
    assert_eq!(b(1.0, 0.0), Atan2Branch::HalfPi);
    assert_eq!(b(1.0, -0.0), Atan2Branch::HalfPi);
    assert_eq!(b(-1.0, 0.0), Atan2Branch::MinusHalfPi);
    assert_eq!(b(0.0, 0.0), Atan2Branch::Undefined);
    assert_eq!(b(-0.0, -0.0), Atan2Branch::Undefined);
    assert_eq!(b(f64::NAN, 0.0), Atan2Branch::Undefined);
    assert_eq!(b(f64::INFINITY, 0.0), Atan2Branch::HalfPi);
    assert_eq!(b(1.0, f64::INFINITY), Atan2Branch::Direct);
}

#[test]
fn sine_cosine_round_trip_through_atan2() {
    let mut x: f64 = -3.0;
    while x <= 3.0 {
        let r = atan2(x.sin(), x.cos());
        let d = (r - x).rem_euclid(2.0 * PI);
        assert!(d.min(2.0 * PI - d) <= 1e-9, "{x}: {r}");
        x += 0.125;
    }
}
