//! Scalar, color and vector arithmetic.

use raytracer::color::{color_add, color_scale, lerp_color, linear_to_srgb, srgb_to_linear, Rgba};
use raytracer::fixed::{
    fx_add, fx_cos_turns, fx_div, fx_mul, fx_pow, fx_sin_turns, fx_sqrt, fx_sub, fx_wrap_unit,
    FRAC, HALF, QUARTER,
};
use raytracer::math::{f0_from_ior, fresnel_schlick, reflect, refract};
use raytracer::vec3::Vec3;

#[test]
fn fixed_ops_behave_like_scaled_integers() {
    assert_eq!(fx_add(FRAC, FRAC), 2 * FRAC);
    assert_eq!(fx_sub(FRAC, 3 * FRAC), -2 * FRAC);
    assert_eq!(fx_mul(2 * FRAC, 3 * FRAC), 6 * FRAC);
    assert_eq!(fx_mul(-2 * FRAC, 3 * FRAC), -6 * FRAC);
    assert_eq!(fx_div(6 * FRAC, 3 * FRAC), 2 * FRAC);
    assert_eq!(fx_div(FRAC, 2 * FRAC), HALF);
    assert_eq!(fx_pow(2 * FRAC, 10), 1024 * FRAC);
}

#[test]
fn fixed_ops_saturate_instead_of_wrapping() {
    assert_eq!(fx_add(i64::MAX, 1), i64::MAX);
    assert_eq!(fx_sub(i64::MIN, 1), i64::MIN);
    assert_eq!(fx_mul(i64::MAX, 2 * FRAC), i64::MAX);
    assert_eq!(fx_mul(i64::MAX, -2 * FRAC), i64::MIN);
}

#[test]
fn square_root_is_exact_on_perfect_squares() {
    assert_eq!(fx_sqrt(0), 0);
    assert_eq!(fx_sqrt(FRAC), FRAC);
    assert_eq!(fx_sqrt(4 * FRAC), 2 * FRAC);
    assert_eq!(fx_sqrt(9 * FRAC), 3 * FRAC);
    // sqrt(2) in fixed point: floor(sqrt(2) * 65536) = 92681
    assert_eq!(fx_sqrt(2 * FRAC), 92681);
}

#[test]
fn sine_and_cosine_hit_the_cardinal_points() {
    assert_eq!(fx_sin_turns(0), 0);
    assert_eq!(fx_sin_turns(QUARTER), FRAC);
    assert_eq!(fx_sin_turns(HALF), 0);
    assert_eq!(fx_sin_turns(HALF + QUARTER), -FRAC);
    assert_eq!(fx_cos_turns(0), FRAC);
    assert_eq!(fx_cos_turns(QUARTER), 0);
    assert_eq!(fx_cos_turns(HALF), -FRAC);
}

#[test]
fn wrap_unit_is_a_euclidean_remainder() {
    assert_eq!(fx_wrap_unit(0), 0);
    assert_eq!(fx_wrap_unit(FRAC), 0);
    assert_eq!(fx_wrap_unit(FRAC + 5), 5);
    assert_eq!(fx_wrap_unit(-1), FRAC - 1);
    assert_eq!(fx_wrap_unit(-FRAC), 0);
}

#[test]
fn color_add_saturates_channels() {
    let a = Rgba::new(200, 10, 255, 7);
    let b = Rgba::new(100, 5, 1, 9);
    let c = color_add(a, b);
    assert_eq!((c.r, c.g, c.b, c.a), (255, 15, 255, 255));
}

#[test]
fn color_scale_clamps_to_byte_range() {
    let c = color_scale(Rgba::new(100, 200, 0, 3), 2 * FRAC);
    assert_eq!((c.r, c.g, c.b, c.a), (200, 255, 0, 3));
    let d = color_scale(Rgba::new(100, 200, 50, 3), -FRAC);
    assert_eq!((d.r, d.g, d.b), (0, 0, 0));
}

#[test]
fn lerp_color_meets_its_endpoints() {
    let a = Rgba::new(10, 20, 30, 255);
    let b = Rgba::new(110, 220, 31, 255);
    let at0 = lerp_color(a, b, 0);
    assert_eq!((at0.r, at0.g, at0.b), (10, 20, 30));
    let at1 = lerp_color(a, b, FRAC);
    assert_eq!((at1.r, at1.g, at1.b), (110, 220, 31));
    let mid = lerp_color(a, b, HALF);
    assert_eq!((mid.r, mid.g, mid.b), (60, 120, 30));
}

#[test]
fn channel_codec_round_trips_within_one_quantum() {
    // decode . encode loses at most FRAC/255 = 257 units, never negatively
    for x in [0, 1, 256, 257, 1311, 32768, 65535, 65536] {
        let encoded = linear_to_srgb(Vec3::new(x, x, x));
        let decoded = srgb_to_linear(encoded);
        let diff = x - decoded.x;
        assert!((0..=257).contains(&diff), "x={x} diff={diff}");
    }
    // encode . decode lands within one byte step
    for c in 0..=255u8 {
        let lin = srgb_to_linear(Rgba::new(c, c, c, 255));
        let back = linear_to_srgb(lin);
        assert!(c as i32 - back.r as i32 <= 1 && back.r <= c, "c={c} back={}", back.r);
    }
}

#[test]
fn fresnel_meets_its_bounds() {
    for f0 in [0, 1, 1000, 19661, 32768, 65535, 65536] {
        assert_eq!(fresnel_schlick(FRAC, f0), f0);
        assert_eq!(fresnel_schlick(0, f0), FRAC);
        for cos in [0, 100, 32768, 60000, 65536] {
            let kr = fresnel_schlick(cos, f0);
            assert!((0..=FRAC).contains(&kr));
            assert!(kr >= f0);
        }
    }
}

#[test]
fn diffuse_weight_is_never_negative() {
    // the integrator's split: kd = max(1 - kr - kt, 0)
    for kr in [0, 19661, 32768, 65536] {
        for kt in [0, 32768, 42598, 65536] {
            let kd0 = fx_sub(fx_sub(FRAC, kr), kt);
            let kd = if kd0 < 0 { 0 } else { kd0 };
            assert!(kd >= 0);
            if kr + kt <= FRAC {
                assert_eq!(kd, FRAC - kr - kt);
            } else {
                assert_eq!(kd, 0);
            }
        }
    }
}

#[test]
fn f0_from_ior_matches_the_dielectric_formula() {
    assert_eq!(f0_from_ior(FRAC), 0);
    // ior = 1.5: ((0.5)/(2.5))^2 = 0.04
    let f0 = f0_from_ior(FRAC + HALF);
    let expected = (0.04f64 * 65536.0) as i64;
    assert!((f0 - expected).abs() <= 16, "f0={f0} expected={expected}");
}

#[test]
fn reflect_mirrors_about_the_normal() {
    let i = Vec3::new(0, -FRAC, 0);
    let n = Vec3::new(0, FRAC, 0);
    let r = reflect(i, n);
    assert_eq!((r.x, r.y, r.z), (0, FRAC, 0));
    // a 45-degree bounce off the floor keeps the horizontal component
    let i2 = Vec3::new(FRAC, -FRAC, 0);
    let r2 = reflect(i2, n);
    assert_eq!((r2.x, r2.y, r2.z), (FRAC, FRAC, 0));
}

#[test]
fn refract_passes_straight_through_equal_media() {
    let i = Vec3::new(0, 0, -FRAC);
    let n = Vec3::new(0, 0, FRAC);
    let r = refract(i, n, FRAC, FRAC).expect("no bend at equal indices");
    assert_eq!((r.x, r.y), (0, 0));
    assert!(r.z < 0);
}

#[test]
fn refract_reports_total_internal_reflection() {
    // leaving glass (ior 1.4) at a grazing angle: k goes negative
    let i = Vec3::new(63000, 0, 18000);
    let n = Vec3::new(0, 0, FRAC);
    // ray travels along +z inside the denser medium, so it is leaving
    let r = refract(i.normalized(), n, FRAC, 91750);
    assert!(r.is_none());
}

#[test]
fn vector_algebra_is_exact_on_unit_values() {
    let x = Vec3::new(FRAC, 0, 0);
    let y = Vec3::new(0, FRAC, 0);
    let z = x.cross(y);
    assert_eq!((z.x, z.y, z.z), (0, 0, FRAC));
    assert_eq!(x.dot(x), FRAC);
    assert_eq!(x.dot(y), 0);
    let v = Vec3::new(3 * FRAC, 4 * FRAC, 0);
    assert_eq!(v.length(), 5 * FRAC);
    let u = v.normalized();
    assert_eq!((u.x, u.y, u.z), (39321, 52428, 0));
    assert_eq!(Vec3::zero().normalized().length(), 0);
}
