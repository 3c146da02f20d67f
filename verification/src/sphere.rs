//! Ray-sphere intersection.
//!
//! Solves `|o + t d - c|^2 = r^2` in fixed point, preferring the smaller
//! positive root past the self-intersection epsilon and falling back to the
//! larger one when the ray starts inside the sphere.  The normal is the
//! unit vector from the center through the hit point, and the texture
//! coordinates come from the spherical mapping of that normal.

use vstd::prelude::*;
use crate::fixed::{
    fx_add, fx_sub, fx_neg, fx_mul, fx_div, fx_sqrt, fx_muli, fx_clamp, fx_wrap_unit,
    fx_atan2_turns, sat_i64, fx_mul_spec, fx_div_spec, isqrt_spec, clamp_spec,
    atan2_turns_spec, moderate, FRAC, HALF,
};
use crate::vec3::{
    Vec3, Vec3V, Vec2, Vec2V, v3, v3_sub_spec, v3_add_spec, v3_scale_spec, v3_dot_spec,
    v3_normalize_spec, v3_length_spec, lemma_dot_self_nonneg,
};
use crate::material::{Material, MaterialV};
use crate::ray_intersect::{Hit, HitV, RayIntersect, no_hit_spec, T_EPS};

verus! {

/// A sphere: center, radius and material.
#[derive(Clone, Copy, Debug, PartialEq, Eq, Structural)]
pub struct Sphere {
    pub center: Vec3,
    pub radius: i64,
    pub material: Material,
}

/// Ghost model of [`Sphere`].
pub ghost struct SphereV {
    pub center: Vec3V,
    pub radius: int,
    pub material: MaterialV,
}

impl View for Sphere {
    type V = SphereV;

    open spec fn view(&self) -> SphereV {
        SphereV { center: self.center@, radius: self.radius as int, material: self.material@ }
    }
}

/// Spherical texture mapping of a unit normal: the longitude angle of
/// `(x, z)` gives `u` (shifted half a turn and wrapped) and the polar angle
/// of `y` gives `v`.
pub open spec fn sphere_uv_spec(n: Vec3V) -> Vec2V {
    let u = (HALF as int + atan2_turns_spec(n.z, n.x)) % (FRAC as int);
    let ny = clamp_spec(n.y, -(FRAC as int), FRAC as int);
    let s2 = sat_i64(FRAC as int - fx_mul_spec(ny, ny));
    let sq = if s2 >= 0 { isqrt_spec(s2 * (FRAC as int)) } else { 0 };
    let v = sat_i64(FRAC as int - 2 * atan2_turns_spec(sq, ny));
    Vec2V { x: u, y: v }
}

/// The hit a sphere reports for a ray, as the executable test computes it:
/// quadratic coefficients, discriminant test, root choice past the epsilon,
/// then point, normal and spherical texture coordinates.  A degenerate
/// direction whose squared length scales down to zero reports a miss.
pub open spec fn sphere_hit_spec(sp: SphereV, ro: Vec3V, rd: Vec3V, oid: int) -> HitV {
    let oc = v3_sub_spec(ro, sp.center);
    let aa = v3_dot_spec(rd, rd);
    let dotb = v3_dot_spec(oc, rd);
    let bb = sat_i64(dotb + dotb);
    let cc = sat_i64(v3_dot_spec(oc, oc) - fx_mul_spec(sp.radius, sp.radius));
    let disc = sat_i64(fx_mul_spec(bb, bb) - sat_i64(4 * fx_mul_spec(aa, cc)));
    if aa == 0 || disc < 0 {
        no_hit_spec()
    } else {
        let sd = isqrt_spec(disc * (FRAC as int));
        let den = sat_i64(aa + aa);
        let t1 = fx_div_spec(sat_i64(sat_i64(-bb) - sd), den);
        let t2 = fx_div_spec(sat_i64(sat_i64(-bb) + sd), den);
        let t = if t1 > T_EPS as int { t1 } else { t2 };
        if t <= T_EPS as int {
            no_hit_spec()
        } else {
            let point = v3_add_spec(ro, v3_scale_spec(rd, t));
            let normal = v3_normalize_spec(v3_sub_spec(point, sp.center));
            HitV {
                is_intersecting: true,
                distance: t,
                point: point,
                normal: normal,
                material: sp.material,
                uv: sphere_uv_spec(normal),
                obj_id: oid,
                tex_id: sp.material.texture,
            }
        }
    }
}

/// Texture coordinates of a unit normal on a sphere.
fn sphere_uv(n: Vec3) -> (r: Vec2)
    ensures r@ == sphere_uv_spec(n@),
{
    let u = fx_wrap_unit(fx_add(HALF, fx_atan2_turns(n.z, n.x)));
    let ny = fx_clamp(n.y, -FRAC, FRAC);
    proof {
        crate::fixed::lemma_mul_sign(ny as int, ny as int);
        assert((ny as int) * (ny as int) <= 65536 * 65536) by (nonlinear_arith)
            requires -65536 <= ny as int <= 65536;
        vstd::arithmetic::div_mod::lemma_div_is_ordered(
            (ny as int) * (ny as int), 65536int * 65536, 65536int);
        vstd::arithmetic::div_mod::lemma_div_by_multiple(65536int, 65536int);
        vstd::arithmetic::div_mod::lemma_div_pos_is_pos((ny as int) * (ny as int), 65536int);
    }
    let s2 = fx_sub(FRAC, fx_mul(ny, ny));
    let sq = if s2 >= 0 { fx_sqrt(s2) } else { 0 };
    let v = fx_sub(FRAC, fx_muli(fx_atan2_turns(sq, ny), 2));
    Vec2 { x: u, y: v }
}

/// A ray fired straight down at a unit sphere from five units above its
/// center hits at exactly four units, at a point lying exactly on the
/// surface — the length of its offset from the center is the radius —
/// with the outward axis normal.
pub proof fn lemma_sphere_axis_ray_on_surface(sp: SphereV, oid: int)
    requires
        sp.radius == FRAC as int,
        moderate(sp.center.x),
        moderate(sp.center.y),
        moderate(sp.center.z),
    ensures ({
        let ro = v3(sp.center.x, sp.center.y, sp.center.z + 5 * (FRAC as int));
        let rd = v3(0, 0, -(FRAC as int));
        let h = sphere_hit_spec(sp, ro, rd, oid);
        &&& h.is_intersecting
        &&& h.distance == 4 * (FRAC as int)
        &&& h.point == v3(sp.center.x, sp.center.y, sp.center.z + FRAC as int)
        &&& h.normal == v3(0, 0, FRAC as int)
        &&& v3_length_spec(v3_sub_spec(h.point, sp.center)) == sp.radius
    }),
{
    crate::math::lemma_fx_mul_zero(0);
    crate::math::lemma_fx_mul_zero(-(FRAC as int));
    crate::math::lemma_fx_mul_zero(4 * (FRAC as int));
    crate::math::lemma_fx_mul_zero(FRAC as int);
    // the squared terms of the quadratic, scaled back down
    assert(fx_mul_spec(-(FRAC as int), -(FRAC as int)) == FRAC as int) by {
        vstd::arithmetic::div_mod::lemma_div_by_multiple(65536int, 65536int);
    }
    assert(fx_mul_spec(5 * (FRAC as int), -(FRAC as int)) == -5 * (FRAC as int)) by {
        vstd::arithmetic::div_mod::lemma_div_by_multiple(5 * 65536int, 65536int);
    }
    assert(fx_mul_spec(5 * (FRAC as int), 5 * (FRAC as int)) == 25 * (FRAC as int)) by {
        assert((5 * 65536int) * (5 * 65536int) == (25 * 65536int) * 65536) by (nonlinear_arith);
        vstd::arithmetic::div_mod::lemma_div_by_multiple(25 * 65536int, 65536int);
    }
    assert(fx_mul_spec(FRAC as int, FRAC as int) == FRAC as int) by {
        vstd::arithmetic::div_mod::lemma_div_by_multiple(65536int, 65536int);
    }
    assert(fx_mul_spec(-10 * (FRAC as int), -10 * (FRAC as int)) == 100 * (FRAC as int)) by {
        assert((-10 * 65536int) * (-10 * 65536int) == (100 * 65536int) * 65536) by (nonlinear_arith);
        vstd::arithmetic::div_mod::lemma_div_by_multiple(100 * 65536int, 65536int);
    }
    assert(fx_mul_spec(FRAC as int, 24 * (FRAC as int)) == 24 * (FRAC as int)) by {
        vstd::arithmetic::div_mod::lemma_div_by_multiple(24 * 65536int, 65536int);
    }
    // the discriminant's root and the root of the unit offset's square
    crate::fixed::lemma_isqrt_unique(4 * 65536 * 65536int, 2 * 65536int);
    crate::fixed::lemma_isqrt_unique(65536 * 65536int, 65536int);
    // the chosen root and the normal's unit component
    assert(fx_div_spec(8 * (FRAC as int), 2 * (FRAC as int)) == 4 * (FRAC as int)) by {
        vstd::arithmetic::div_mod::lemma_div_by_multiple(4 * 65536int, 2 * 65536int);
        assert(8 * 65536int * 65536 == 4 * 65536 * (2 * 65536int)) by (nonlinear_arith);
    }
    assert(fx_mul_spec(-(FRAC as int), 4 * (FRAC as int)) == -4 * (FRAC as int)) by {
        vstd::arithmetic::div_mod::lemma_div_by_multiple(4 * 65536int, 65536int);
    }
    assert(fx_div_spec(FRAC as int, FRAC as int) == FRAC as int) by {
        vstd::arithmetic::div_mod::lemma_div_by_multiple(65536int, 65536int);
    }
    assert(fx_div_spec(0, FRAC as int) == 0) by {
        vstd::arithmetic::div_mod::lemma_div_by_multiple(0, 65536int);
    }
}

/// The normal a sphere reports is radial: the unit vector from the center
/// through the hit point; and the hit is never inside the self-intersection
/// epsilon.
pub proof fn lemma_sphere_normal_is_radial(sp: SphereV, ro: Vec3V, rd: Vec3V, oid: int)
    ensures sphere_hit_spec(sp, ro, rd, oid).is_intersecting ==> {
        let h = sphere_hit_spec(sp, ro, rd, oid);
        h.normal == v3_normalize_spec(v3_sub_spec(h.point, sp.center))
            && h.distance > T_EPS as int
    },
{
}

impl RayIntersect for Sphere {
    /// Exact account of the quadratic sphere test.
    fn ray_intersect(&self, ro: &Vec3, rd: &Vec3, obj_id: usize) -> (h: Hit)
        ensures h@ == sphere_hit_spec(self@, ro@, rd@, obj_id as int),
    {
        let oc = ro.sub(self.center);
        let aa = rd.dot(*rd);
        let dotb = oc.dot(*rd);
        let bb = fx_add(dotb, dotb);
        let cc = fx_sub(oc.dot(oc), fx_mul(self.radius, self.radius));
        let disc = fx_sub(fx_mul(bb, bb), fx_muli(fx_mul(aa, cc), 4));
        if aa == 0 || disc < 0 {
            return Hit::no_hit();
        }
        proof {
            lemma_dot_self_nonneg(rd@);
        }
        let sd = fx_sqrt(disc);
        let den = fx_add(aa, aa);
        let t1 = fx_div(fx_sub(fx_neg(bb), sd), den);
        let t = if t1 > T_EPS {
            t1
        } else {
            fx_div(fx_add(fx_neg(bb), sd), den)
        };
        if t <= T_EPS {
            return Hit::no_hit();
        }
        let point = ro.add(rd.scale(t));
        let normal = point.sub(self.center).normalized();
        Hit {
            is_intersecting: true,
            distance: t,
            point,
            normal,
            material: self.material,
            uv: sphere_uv(normal),
            obj_id,
            tex_id: self.material.texture,
        }
    }
}

} // verus!
