//! Reflection, refraction and the Fresnel term.

use vstd::prelude::*;
use crate::fixed::{
    fx_add, fx_sub, fx_neg, fx_mul, fx_div, fx_muli, fx_pow, fx_sqrt, fx_clamp,
    sat_i64, iabs, fx_mul_spec, fx_div_spec, fx_pow_spec, isqrt_spec, clamp_spec,
    lemma_mul_sign, FRAC,
};
use crate::vec3::{
    Vec3, Vec3V, v3_sub_spec, v3_add_spec, v3_scale_spec, v3_dot_spec, v3_neg_spec,
};

verus! {

/// The mirror image of an incident vector about a normal:
/// `i - 2 (i . n) n`.
pub open spec fn reflect_spec(i: Vec3V, n: Vec3V) -> Vec3V {
    v3_sub_spec(i, v3_scale_spec(n, sat_i64(2 * v3_dot_spec(i, n))))
}

/// Reflect `i` about `n`.
pub fn reflect(i: Vec3, n: Vec3) -> (r: Vec3)
    ensures r@ == reflect_spec(i@, n@),
{
    i.sub(n.scale(fx_muli(i.dot(n), 2)))
}

/// The Schlick approximation of the Fresnel reflectance:
/// `f0 + (1 - f0) (1 - cos)^5`.
pub open spec fn fresnel_schlick_spec(cos_theta: int, f0: int) -> int {
    sat_i64(f0 + fx_mul_spec(sat_i64(FRAC as int - f0),
        fx_pow_spec(sat_i64(FRAC as int - cos_theta), 5)))
}

/// Angle-dependent reflectance by Schlick's approximation.
pub fn fresnel_schlick(cos_theta: i64, f0: i64) -> (r: i64)
    ensures r as int == fresnel_schlick_spec(cos_theta as int, f0 as int),
{
    fx_add(f0, fx_mul(fx_sub(FRAC, f0), fx_pow(fx_sub(FRAC, cos_theta), 5)))
}

/// The normal-incidence reflectance of a dielectric:
/// `((ior - 1) / (ior + 1))^2`; an index that cancels the denominator
/// (far outside any physical range) yields zero.
pub open spec fn f0_from_ior_spec(ior: int) -> int {
    let den = sat_i64(ior + FRAC as int);
    if den == 0 {
        0
    } else {
        let r0 = fx_div_spec(sat_i64(ior - FRAC as int), den);
        fx_mul_spec(r0, r0)
    }
}

/// Base reflectance from a refractive index.
pub fn f0_from_ior(ior: i64) -> (r: i64)
    ensures r as int == f0_from_ior_spec(ior as int),
{
    let den = fx_add(ior, FRAC);
    if den == 0 {
        0
    } else {
        let r0 = fx_div(fx_sub(ior, FRAC), den);
        fx_mul(r0, r0)
    }
}

/// The refracted direction by Snell's law, entering a medium of index
/// `eta_t` from one of index `eta_i`: the incidence cosine decides whether
/// the ray is entering or leaving (leaving flips the normal and swaps the
/// indices); a negative discriminant is total internal reflection and a
/// zero target index transmits nothing.
pub open spec fn refract_spec(i: Vec3V, n: Vec3V, eta_i: int, eta_t: int) -> Option<Vec3V> {
    let cosi0 = clamp_spec(sat_i64(-v3_dot_spec(i, n)), -(FRAC as int), FRAC as int);
    let entering = cosi0 >= 0;
    let cosi = if entering { cosi0 } else { -cosi0 };
    let etai = if entering { eta_i } else { eta_t };
    let etat = if entering { eta_t } else { eta_i };
    let n_ref = if entering { n } else { v3_neg_spec(n) };
    if etat == 0 {
        None
    } else {
        let eta = fx_div_spec(etai, etat);
        let k = sat_i64(FRAC as int - fx_mul_spec(fx_mul_spec(eta, eta),
            sat_i64(FRAC as int - fx_mul_spec(cosi, cosi))));
        if k < 0 {
            None
        } else {
            Some(v3_add_spec(
                v3_scale_spec(i, eta),
                v3_scale_spec(n_ref, sat_i64(fx_mul_spec(eta, cosi) - isqrt_spec(k * (FRAC as int)))),
            ))
        }
    }
}

/// Refract `i` through a surface with normal `n`, from medium `eta_i`
/// into `eta_t`; `None` means total internal reflection (or a zero index).
pub fn refract(i: Vec3, n: Vec3, eta_i: i64, eta_t: i64) -> (r: Option<Vec3>)
    ensures
        match refract_spec(i@, n@, eta_i as int, eta_t as int) {
            None => r is None,
            Some(d) => r matches Some(e) && e@ == d,
        },
{
    let cosi0 = fx_clamp(fx_neg(i.dot(n)), -FRAC, FRAC);
    let entering = cosi0 >= 0;
    let cosi = if entering { cosi0 } else { -cosi0 };
    let etai = if entering { eta_i } else { eta_t };
    let etat = if entering { eta_t } else { eta_i };
    let n_ref = if entering { n } else { n.neg() };
    if etat == 0 {
        return None;
    }
    let eta = fx_div(etai, etat);
    let k = fx_sub(FRAC, fx_mul(fx_mul(eta, eta), fx_sub(FRAC, fx_mul(cosi, cosi))));
    if k < 0 {
        None
    } else {
        Some(i.scale(eta).add(n_ref.scale(fx_sub(fx_mul(eta, cosi), fx_sqrt(k)))))
    }
}

/// A power of a nonnegative scalar is nonnegative.
pub proof fn lemma_pow_nonneg(b: int, e: nat)
    requires b >= 0,
    ensures fx_pow_spec(b, e) >= 0,
    decreases e,
{
    if e > 0 {
        lemma_pow_nonneg(b, (e - 1) as nat);
        lemma_mul_sign(b, fx_pow_spec(b, (e - 1) as nat));
        vstd::arithmetic::div_mod::lemma_div_pos_is_pos(
            iabs(b * fx_pow_spec(b, (e - 1) as nat)), 65536int);
    }
}

/// A power of a scalar in the unit interval stays in the unit interval.
pub proof fn lemma_pow_unit(b: int, e: nat)
    requires 0 <= b <= FRAC as int,
    ensures 0 <= fx_pow_spec(b, e) <= FRAC as int,
    decreases e,
{
    if e > 0 {
        lemma_pow_unit(b, (e - 1) as nat);
        let p = fx_pow_spec(b, (e - 1) as nat);
        lemma_pow_nonneg(b, e);
        lemma_mul_sign(b, p);
        assert(b * p <= 65536 * 65536) by (nonlinear_arith)
            requires 0 <= b <= 65536 && 0 <= p <= 65536;
        vstd::arithmetic::div_mod::lemma_div_is_ordered(b * p, 65536int * 65536, 65536int);
        vstd::arithmetic::div_mod::lemma_div_by_multiple(65536int, 65536int);
        assert(iabs(b * p) == b * p);
    }
}

/// A product with zero scales down to zero.
pub proof fn lemma_fx_mul_zero(a: int)
    ensures
        fx_mul_spec(a, 0) == 0,
        fx_mul_spec(0, a) == 0,
{
    lemma_mul_sign(a, 0);
    lemma_mul_sign(0, a);
}

/// A product with one scales down to the other factor, for factors in the
/// saturated range.
pub proof fn lemma_fx_mul_one(a: int)
    requires 0 <= a <= i64::MAX as int,
    ensures
        fx_mul_spec(a, FRAC as int) == a,
        fx_mul_spec(FRAC as int, a) == a,
{
    lemma_mul_sign(a, 65536int);
    lemma_mul_sign(65536int, a);
    vstd::arithmetic::div_mod::lemma_div_by_multiple(a, 65536int);
    assert(iabs(a * 65536) == a * 65536);
    assert(65536int * a == a * 65536) by (nonlinear_arith);
    assert(iabs(65536 * a) == 65536 * a);
}

/// The Fresnel term meets its bounds: at grazing incidence (`cos = 0`) it
/// is total, at normal incidence (`cos = 1`) it is exactly the base
/// reflectance, and for any incidence cosine and base reflectance in the
/// unit interval it stays inside the unit interval.
pub proof fn lemma_fresnel_bounds(cos_theta: int, f0: int)
    requires
        0 <= f0 <= FRAC as int,
        0 <= cos_theta <= FRAC as int,
    ensures
        fresnel_schlick_spec(FRAC as int, f0) == f0,
        fresnel_schlick_spec(0, f0) == FRAC as int,
        0 <= fresnel_schlick_spec(cos_theta, f0) <= FRAC as int,
{
    let b = sat_i64(FRAC as int - cos_theta);
    let w = sat_i64(FRAC as int - f0);
    lemma_pow_unit(b, 5);
    let p = fx_pow_spec(b, 5);
    lemma_mul_sign(w, p);
    assert(w * p <= w * 65536) by (nonlinear_arith)
        requires 0 <= w && p <= 65536;
    vstd::arithmetic::div_mod::lemma_div_is_ordered(w * p, w * 65536, 65536int);
    vstd::arithmetic::div_mod::lemma_div_by_multiple(w, 65536int);
    vstd::arithmetic::div_mod::lemma_div_pos_is_pos(iabs(w * p), 65536int);
    assert(iabs(w * p) == w * p);
    assert(0 <= fx_mul_spec(w, p) <= w);

    assert(fx_pow_spec(sat_i64(FRAC as int - FRAC as int), 5) == 0) by {
        assert(fx_mul_spec(0, fx_pow_spec(0, 4)) == 0) by {
            lemma_fx_mul_zero(fx_pow_spec(0, 4));
        }
    }
    lemma_fx_mul_zero(w);
    assert(fresnel_schlick_spec(FRAC as int, f0) == f0);

    lemma_pow_full(5);
    lemma_fx_mul_one(w);
    assert(fresnel_schlick_spec(0, f0) == FRAC as int);
}

/// Raising one to any power gives one.
pub proof fn lemma_pow_full(e: nat)
    ensures fx_pow_spec(FRAC as int, e) == FRAC as int,
    decreases e,
{
    if e > 0 {
        lemma_pow_full((e - 1) as nat);
        vstd::arithmetic::div_mod::lemma_div_by_multiple(65536int, 65536int);
        assert(iabs(65536int * 65536) == 65536int * 65536) by (nonlinear_arith);
    }
}

/// The energy split the integrator uses: the diffuse weight that is left
/// after reflection and transmission, floored at zero.
pub open spec fn kd_spec(kr: int, kt: int) -> int {
    let kd0 = sat_i64(sat_i64(FRAC as int - kr) - kt);
    if kd0 < 0 { 0 } else { kd0 }
}

/// The energy partition is sound: the diffuse weight is never negative,
/// and with reflectance and transmittance in the unit interval it is
/// exactly the energy the other two leave over, or zero when they already
/// claim everything.
pub proof fn lemma_energy_partition(kr: int, kt: int)
    ensures
        kd_spec(kr, kt) >= 0,
        0 <= kr <= FRAC as int && 0 <= kt <= FRAC as int ==> kd_spec(kr, kt) == (
            if kr + kt <= FRAC as int { FRAC as int - kr - kt } else { 0 }),
{
}

/// The three blend weights the integrator derives from a hit are sound:
/// for an incidence cosine and base reflectance in the unit interval, the
/// Fresnel reflectance stays in the unit interval, the clamped
/// transparency does by construction, and the leftover diffuse weight is
/// nonnegative — so no weighted term can flip a contribution's sign.
pub proof fn lemma_blend_weights(cos_theta: int, f0: int, transparency: int)
    requires
        0 <= cos_theta <= FRAC as int,
        0 <= f0 <= FRAC as int,
    ensures
        0 <= fresnel_schlick_spec(cos_theta, f0) <= FRAC as int,
        0 <= clamp_spec(transparency, 0, FRAC as int) <= FRAC as int,
        kd_spec(fresnel_schlick_spec(cos_theta, f0),
            clamp_spec(transparency, 0, FRAC as int)) >= 0,
{
    lemma_fresnel_bounds(cos_theta, f0);
}

} // verus!
