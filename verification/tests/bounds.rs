use vector::{Vector, Vector2, Vector3, Vector4};

fn b(value: f32) -> u32 {
    value.to_bits()
}

fn v2(x: f32, y: f32) -> Vector2 {
    Vector2 { x: b(x), y: b(y) }
}

fn v3(x: f32, y: f32, z: f32) -> Vector3 {
    Vector3 { x: b(x), y: b(y), z: b(z) }
}

fn v4(x: f32, y: f32, z: f32, w: f32) -> Vector4 {
    Vector4 { x: b(x), y: b(y), z: b(z), w: b(w) }
}

fn samples() -> Vec<f32> {
    vec![
        0.0,
        -0.0,
        1.0,
        -1.0,
        0.5,
        -0.5,
        2.5,
        -2.5,
        1.0e-40,
        -1.0e-40,
        1.0e10,
        -1.0e10,
        f32::MAX,
        f32::MIN,
        f32::INFINITY,
        f32::NEG_INFINITY,
        f32::NAN,
    ]
}

#[test]
fn min_is_componentwise() {
    let r = v2(1.0, 5.0).min(&v2(2.0, -5.0));
    assert_eq!([r.x, r.y], [b(1.0), b(-5.0)]);
    let r = v3(1.0, 5.0, -0.5).min(&v3(2.0, -5.0, 0.5));
    assert_eq!([r.x, r.y, r.z], [b(1.0), b(-5.0), b(-0.5)]);
    let r = v4(1.0, 5.0, 0.0, f32::INFINITY).min(&v4(2.0, -5.0, 1.0, 3.0));
    assert_eq!([r.x, r.y, r.z, r.w], [b(1.0), b(-5.0), b(0.0), b(3.0)]);
}

#[test]
fn max_is_componentwise() {
    let r = v2(1.0, 5.0).max(&v2(2.0, -5.0));
    assert_eq!([r.x, r.y], [b(2.0), b(5.0)]);
    let r = v3(1.0, 5.0, -0.5).max(&v3(2.0, -5.0, 0.5));
    assert_eq!([r.x, r.y, r.z], [b(2.0), b(5.0), b(0.5)]);
    let r = v4(1.0, 5.0, 0.0, f32::NEG_INFINITY).max(&v4(2.0, -5.0, 1.0, 3.0));
    assert_eq!([r.x, r.y, r.z, r.w], [b(2.0), b(5.0), b(1.0), b(3.0)]);
}

#[test]
fn min_and_max_ignore_a_nan_operand() {
    let r = v2(f32::NAN, 1.0).min(&v2(3.0, f32::NAN));
    assert_eq!([r.x, r.y], [b(3.0), b(1.0)]);
    let r = v2(f32::NAN, 1.0).max(&v2(3.0, f32::NAN));
    assert_eq!([r.x, r.y], [b(3.0), b(1.0)]);
    let r = v2(f32::NAN, f32::NAN).min(&v2(f32::NAN, 0.0));
    assert!(f32::from_bits(r.x).is_nan());
    assert_eq!(r.y, b(0.0));
}

#[test]
fn min_and_max_keep_self_on_ties() {
    let r = v2(0.0, -0.0).min(&v2(-0.0, 0.0));
    assert_eq!([r.x, r.y], [b(0.0), b(-0.0)]);
    let r = v2(0.0, -0.0).max(&v2(-0.0, 0.0));
    assert_eq!([r.x, r.y], [b(0.0), b(-0.0)]);
}

#[test]
fn min_and_max_agree_with_hardware_as_numbers() {
    for &p in &samples() {
        for &q in &samples() {
            let lo = f32::from_bits(vector::scalar::min(b(p), b(q)));
            let hi = f32::from_bits(vector::scalar::max(b(p), b(q)));
            let want_lo = p.min(q);
            let want_hi = p.max(q);
            if want_lo.is_nan() {
                assert!(lo.is_nan() && hi.is_nan());
            } else {
                assert!(lo == want_lo, "min({}, {})", p, q);
                assert!(hi == want_hi, "max({}, {})", p, q);
            }
        }
    }
}

#[test]
fn clamp_bounds_every_component() {
    let r = v2(-5.0, 5.0).clamp(&v2(-1.0, -1.0), &v2(1.0, 1.0));
    assert_eq!([r.x, r.y], [b(-1.0), b(1.0)]);
    let r = v3(0.25, 9.0, -9.0).clamp(&v3(0.0, 0.0, 0.0), &v3(1.0, 2.0, 3.0));
    assert_eq!([r.x, r.y, r.z], [b(0.25), b(2.0), b(0.0)]);
    let r = v4(0.5, 1.5, -2.5, 100.0).clamp(&v4(0.0, 0.0, -1.0, 10.0), &v4(1.0, 1.0, 1.0, 20.0));
    assert_eq!([r.x, r.y, r.z, r.w], [b(0.5), b(1.0), b(-1.0), b(20.0)]);
}

#[test]
fn clamp_of_nan_is_the_lower_bound() {
    let r = v2(f32::NAN, 0.5).clamp(&v2(-1.0, 0.0), &v2(1.0, 1.0));
    assert_eq!([r.x, r.y], [b(-1.0), b(0.5)]);
}

#[test]
fn clamp_is_idempotent() {
    let lo = v4(-1.0, 0.0, -0.0, 1.0e-40);
    let hi = v4(1.0, 1.0, 2.0, f32::INFINITY);
    for &p in &samples() {
        for &q in &samples() {
            let a = v4(p, q, q, p);
            let once = a.clamp(&lo, &hi);
            let twice = once.clamp(&lo, &hi);
            assert_eq!([once.x, once.y, once.z, once.w], [twice.x, twice.y, twice.z, twice.w]);
            let want = a.max(&lo).min(&hi);
            assert_eq!([once.x, once.y, once.z, once.w], [want.x, want.y, want.z, want.w]);
        }
    }
}

#[test]
fn clamp_bounds_are_told_apart_by_lt() {
    // the bounds of the failing example: min.x == max.x
    let lo = v2(1.0, 0.0);
    let hi = v2(2.0, 1.0);
    assert!(!vector::scalar::lt(lo.x, lo.x));
    assert!(vector::scalar::lt(lo.x, hi.x));
    assert!(vector::scalar::lt(lo.y, hi.y));
    assert!(!vector::scalar::lt(b(f32::NAN), b(1.0)));
    assert!(!vector::scalar::lt(b(1.0), b(f32::NAN)));
    assert!(!vector::scalar::lt(b(-0.0), b(0.0)));
    assert!(vector::scalar::nan(b(f32::NAN)));
    assert!(!vector::scalar::nan(b(f32::INFINITY)));
}
