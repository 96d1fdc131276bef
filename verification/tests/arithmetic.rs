use vector::{Vector, Vector2, Vector3, Vector4};

fn b(value: f32) -> u32 {
    value.to_bits()
}

fn v2(x: f32, y: f32) -> Vector2 {
    Vector2 { x: b(x), y: b(y) }
}

fn v3(x: f32, y: f32, z: f32) -> Vector3 {
    Vector3 { x: b(x), y: b(y), z: b(z) }
}

fn v4(x: f32, y: f32, z: f32, w: f32) -> Vector4 {
    Vector4 { x: b(x), y: b(y), z: b(z), w: b(w) }
}

fn samples() -> Vec<f32> {
    vec![
        0.0,
        -0.0,
        1.0,
        -1.0,
        0.5,
        -0.5,
        0.1,
        0.2,
        0.3,
        1.5,
        2.5,
        -2.5,
        3.0,
        7.0,
        -3.7,
        1.0e-40,
        -1.0e-40,
        1.0e-45,
        f32::MIN_POSITIVE,
        0.99999994,
        1.0000001,
        123456.789,
        8388607.5,
        8388608.0,
        16777216.0,
        16777217.0,
        1.0e10,
        -1.0e10,
        1.0e30,
        1.0e-30,
        3.4e38,
        f32::MAX,
        f32::MIN,
        f32::INFINITY,
        f32::NEG_INFINITY,
        f32::NAN,
    ]
}

fn same(got: u32, want: f32) -> bool {
    if want.is_nan() {
        f32::from_bits(got).is_nan()
    } else {
        got == want.to_bits()
    }
}

#[test]
fn add_matches_hardware_on_samples() {
    for &p in &samples() {
        for &q in &samples() {
            let r = v2(p, q) + v2(q, p);
            assert!(same(r.x, p + q), "{} + {}", p, q);
            assert!(same(r.y, q + p), "{} + {}", q, p);
        }
    }
}

#[test]
fn sub_matches_hardware_on_samples() {
    for &p in &samples() {
        for &q in &samples() {
            let r = v2(p, q) - v2(q, p);
            assert!(same(r.x, p - q), "{} - {}", p, q);
            assert!(same(r.y, q - p), "{} - {}", q, p);
        }
    }
}

#[test]
fn mul_matches_hardware_on_samples() {
    for &p in &samples() {
        for &q in &samples() {
            let r = v2(p, q) * v2(q, p);
            assert!(same(r.x, p * q), "{} * {}", p, q);
            assert!(same(r.y, q * p), "{} * {}", q, p);
        }
    }
}

#[test]
fn div_matches_hardware_on_samples() {
    for &p in &samples() {
        for &q in &samples() {
            let r = v2(p, q) / v2(q, p);
            assert!(same(r.x, p / q), "{} / {}", p, q);
            assert!(same(r.y, q / p), "{} / {}", q, p);
        }
    }
}

#[test]
fn scalar_mul_matches_hardware_on_samples() {
    for &p in &samples() {
        for &q in &samples() {
            let r = v3(p, q, 2.0) * b(q);
            assert!(same(r.x, p * q));
            assert!(same(r.y, q * q));
            assert!(same(r.z, 2.0 * q));
        }
    }
}

#[test]
fn add_is_componentwise() {
    let r = v2(1.0, 2.0) + v2(10.0, 20.0);
    assert_eq!([r.x, r.y], [b(11.0), b(22.0)]);
    let r = v3(1.0, 2.0, 3.0) + v3(10.0, 20.0, 30.0);
    assert_eq!([r.x, r.y, r.z], [b(11.0), b(22.0), b(33.0)]);
    let r = v4(1.0, 2.0, 3.0, 4.0) + v4(10.0, 20.0, 30.0, 40.0);
    assert_eq!([r.x, r.y, r.z, r.w], [b(11.0), b(22.0), b(33.0), b(44.0)]);
}

#[test]
fn sub_is_componentwise() {
    let r = v2(1.0, 2.0) - v2(10.0, 20.5);
    assert_eq!([r.x, r.y], [b(-9.0), b(-18.5)]);
    let r = v3(1.0, 2.0, 3.0) - v3(10.0, 20.0, 30.0);
    assert_eq!([r.x, r.y, r.z], [b(-9.0), b(-18.0), b(-27.0)]);
    let r = v4(1.0, 2.0, 3.0, 4.0) - v4(0.5, 0.5, 0.5, 0.5);
    assert_eq!([r.x, r.y, r.z, r.w], [b(0.5), b(1.5), b(2.5), b(3.5)]);
}

#[test]
fn mul_is_componentwise() {
    let r = v2(1.5, 2.0) * v2(2.0, -3.0);
    assert_eq!([r.x, r.y], [b(3.0), b(-6.0)]);
    let r = v3(1.0, 2.0, 3.0) * v3(4.0, 5.0, 6.0);
    assert_eq!([r.x, r.y, r.z], [b(4.0), b(10.0), b(18.0)]);
    let r = v4(1.0, 2.0, 3.0, 4.0) * v4(2.0, 2.0, 2.0, 0.25);
    assert_eq!([r.x, r.y, r.z, r.w], [b(2.0), b(4.0), b(6.0), b(1.0)]);
}

#[test]
fn div_is_componentwise() {
    let r = v2(1.0, 9.0) / v2(4.0, -3.0);
    assert_eq!([r.x, r.y], [b(0.25), b(-3.0)]);
    let r = v3(1.0, 2.0, 3.0) / v3(3.0, 2.0, 1.0);
    assert_eq!([r.x, r.y, r.z], [b(1.0 / 3.0), b(1.0), b(3.0)]);
    let r = v4(1.0, 2.0, 3.0, 4.0) / v4(2.0, 2.0, 2.0, 2.0);
    assert_eq!([r.x, r.y, r.z, r.w], [b(0.5), b(1.0), b(1.5), b(2.0)]);
}

#[test]
fn division_by_zero_gives_infinity_or_nan() {
    let r = v4(1.0, -1.0, 0.0, f32::INFINITY) / v4(0.0, 0.0, 0.0, 0.0);
    assert_eq!(r.x, b(f32::INFINITY));
    assert_eq!(r.y, b(f32::NEG_INFINITY));
    assert!(f32::from_bits(r.z).is_nan());
    assert_eq!(r.w, b(f32::INFINITY));
}

#[test]
fn scalar_mul_scales_every_component() {
    let r = v2(1.5, -2.0) * b(2.0);
    assert_eq!([r.x, r.y], [b(3.0), b(-4.0)]);
    let r = v3(1.0, 2.0, 3.0) * b(0.5);
    assert_eq!([r.x, r.y, r.z], [b(0.5), b(1.0), b(1.5)]);
    let r = v4(1.0, 2.0, 3.0, 4.0) * b(-1.0);
    assert_eq!([r.x, r.y, r.z, r.w], [b(-1.0), b(-2.0), b(-3.0), b(-4.0)]);
}

#[test]
fn neg_flips_every_sign() {
    let r = -v2(1.5, -2.0);
    assert_eq!([r.x, r.y], [b(-1.5), b(2.0)]);
    let r = -v3(0.0, -0.0, f32::INFINITY);
    assert_eq!([r.x, r.y, r.z], [b(-0.0), b(0.0), b(f32::NEG_INFINITY)]);
    let r = -v4(1.0, 2.0, 3.0, f32::NAN);
    assert_eq!([r.x, r.y, r.z], [b(-1.0), b(-2.0), b(-3.0)]);
    assert_eq!(r.w, b(f32::NAN) ^ 0x8000_0000);
    for &p in &samples() {
        assert_eq!(vector::scalar::neg(b(p)), b(-p));
    }
}

#[test]
fn multiply_add_is_product_then_sum() {
    let r = v2(2.0, 3.0).multiply_add(&v2(4.0, 5.0), &v2(1.0, 1.0));
    assert_eq!([r.x, r.y], [b(9.0), b(16.0)]);
    let r = v3(2.0, 3.0, 4.0).multiply_add(&v3(4.0, 5.0, 6.0), &v3(1.0, 1.0, -24.0));
    assert_eq!([r.x, r.y, r.z], [b(9.0), b(16.0), b(0.0)]);
    let r = v4(2.0, 3.0, 4.0, 0.5).multiply_add(&v4(4.0, 5.0, 6.0, 0.5), &v4(1.0, 1.0, 1.0, 1.0));
    assert_eq!([r.x, r.y, r.z, r.w], [b(9.0), b(16.0), b(25.0), b(1.25)]);
}

#[test]
fn multiply_add_rounds_the_product_first() {
    // 16777217 is not representable: the product rounds to 16777216
    // before the sum, so the separate rounding shows.
    let p = 4097.0f32;
    let q = 4095.0f32;
    let c = -16777216.0f32;
    let r = v2(p, p).multiply_add(&v2(q, q), &v2(c, 0.0));
    assert_eq!(r.x, b(p * q + c));
    assert_eq!(r.y, b(p * q));
    for &s in &samples() {
        for &t in &samples() {
            let r = v2(s, t).multiply_add(&v2(t, s), &v2(1.0, s));
            let want = v2(s, t) * v2(t, s) + v2(1.0, s);
            assert_eq!([r.x, r.y], [want.x, want.y]);
        }
    }
}

#[test]
fn add_then_sub_returns_the_start_on_exact_values() {
    let a = v3(1.0, -2.5, 1024.0);
    let c = v3(3.0, 0.25, -512.0);
    let r = a + c - c;
    assert_eq!([r.x, r.y, r.z], [a.x, a.y, a.z]);
}

#[test]
fn add_then_sub_stays_within_one_step_on_close_values() {
    let a = v2(0.1, 0.7);
    let c = v2(0.2, 0.3);
    let r = a + c - c;
    let dx = (r.x as i64 - a.x as i64).abs();
    let dy = (r.y as i64 - a.y as i64).abs();
    assert!(dx <= 1 && dy <= 1);
    assert_eq!(r.x, b(0.1f32 + 0.2f32 - 0.2f32));
    assert_eq!(r.y, b(0.7f32 + 0.3f32 - 0.3f32));
}

#[test]
fn eq_is_ieee_equality() {
    assert!(v2(1.0, 2.0) == v2(1.0, 2.0));
    assert!(v2(1.0, 2.0) != v2(1.0, 2.5));
    assert!(v2(0.0, -0.0) == v2(-0.0, 0.0));
    assert!(v2(f32::NAN, 1.0) != v2(f32::NAN, 1.0));
    assert!(v3(1.0, 2.0, 3.0) == v3(1.0, 2.0, 3.0));
    assert!(v3(1.0, 2.0, 3.0) != v3(1.0, 2.0, -3.0));
    assert!(v3(1.0, 2.0, f32::NAN) != v3(1.0, 2.0, f32::NAN));
    assert!(v4(1.0, 2.0, 3.0, 4.0) == v4(1.0, 2.0, 3.0, 4.0));
    assert!(v4(1.0, 2.0, 3.0, 4.0) != v4(1.0, 2.0, 3.0, 4.5));
    for &p in &samples() {
        for &q in &samples() {
            assert_eq!(vector::scalar::eq(b(p), b(q)), p == q);
            assert_eq!(vector::scalar::lt(b(p), b(q)), p < q);
        }
    }
}
