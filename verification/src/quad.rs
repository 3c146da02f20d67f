//! Ray intersection with a bounded, double-sided plane.
//!
//! The quad keeps a unit normal and a unit "up" axis orthogonalized against
//! it.  A ray meets the carrier plane at `t = (center - origin) . n / (d . n)`
//! (near-parallel rays are rejected); the hit point is projected onto the
//! quad's right/up basis and rejected outside the half extents.  Texture
//! coordinates are linear in the projected offsets, and the reported normal
//! is flipped to oppose the incoming ray.

use vstd::prelude::*;
use crate::fixed::{
    fx_add, fx_abs, fx_mul, fx_div, fx_neg, sat_i64, iabs, fx_mul_spec, fx_div_spec, FRAC, HALF,
};
use crate::vec3::{
    Vec3, Vec3V, Vec2, Vec2V, v3, v3_sub_spec, v3_add_spec, v3_scale_spec, v3_dot_spec,
    v3_cross_spec, v3_neg_spec, v3_normalize_spec, v3_length_spec,
};
use crate::material::{Material, MaterialV};
use crate::ray_intersect::{Hit, HitV, RayIntersect, no_hit_spec, T_EPS};

verus! {

/// Plane denominators below one fixed-point unit (about 1.5e-5) count as
/// parallel: in this scale that is a dot product of exactly zero.
pub const QUAD_DENOM_EPS: i64 = 1;

/// A bounded plane: center, unit normal, unit up axis, full width and
/// height, and a material (whose texture may be animated).
#[derive(Clone, Copy, Debug, PartialEq, Eq, Structural)]
pub struct AnimatedQuad {
    pub center: Vec3,
    pub normal: Vec3,
    pub up: Vec3,
    pub width: i64,
    pub height: i64,
    pub material: Material,
}

/// Ghost model of [`AnimatedQuad`].
pub ghost struct AnimatedQuadV {
    pub center: Vec3V,
    pub normal: Vec3V,
    pub up: Vec3V,
    pub width: int,
    pub height: int,
    pub material: MaterialV,
}

impl View for AnimatedQuad {
    type V = AnimatedQuadV;

    open spec fn view(&self) -> AnimatedQuadV {
        AnimatedQuadV {
            center: self.center@,
            normal: self.normal@,
            up: self.up@,
            width: self.width as int,
            height: self.height as int,
            material: self.material@,
        }
    }
}

/// The normalized normal a quad stores for a requested one.
pub open spec fn quad_unit_normal_spec(normal: Vec3V) -> Vec3V {
    v3_normalize_spec(normal)
}

/// The up axis a quad stores: the requested one (or +Y when it has length
/// zero) made orthogonal to the unit normal and normalized.
pub open spec fn quad_unit_up_spec(normal: Vec3V, up: Vec3V) -> Vec3V {
    let n = quad_unit_normal_spec(normal);
    let u0 = if v3_length_spec(up) == 0 { v3(0, FRAC as int, 0) } else { up };
    v3_normalize_spec(v3_sub_spec(u0, v3_scale_spec(n, v3_dot_spec(u0, n))))
}

/// A fraction of a half extent remapped from `[-1, 1]` to `[0, 1]`; a zero
/// extent (a degenerate quad) maps to the middle.
pub open spec fn half_extent_uv_spec(x: int, hw: int) -> int {
    let f = if hw == 0 { 0 } else { fx_div_spec(x, hw) };
    sat_i64(fx_mul_spec(f, HALF as int) + HALF as int)
}

fn half_extent_uv(x: i64, hw: i64) -> (r: i64)
    ensures r as int == half_extent_uv_spec(x as int, hw as int),
{
    let f = if hw == 0 { 0 } else { fx_div(x, hw) };
    fx_add(fx_mul(f, HALF), HALF)
}

/// The hit a quad reports: plane intersection past the epsilon, projection
/// onto the right/up basis, extent test, linear texture coordinates, and a
/// normal flipped against the ray.
pub open spec fn quad_hit_spec(q: AnimatedQuadV, ro: Vec3V, rd: Vec3V, oid: int) -> HitV {
    let n = q.normal;
    let denom = v3_dot_spec(n, rd);
    if sat_i64(iabs(denom)) < QUAD_DENOM_EPS as int {
        no_hit_spec()
    } else {
        let t = fx_div_spec(v3_dot_spec(v3_sub_spec(q.center, ro), n), denom);
        if t <= T_EPS as int {
            no_hit_spec()
        } else {
            let p = v3_add_spec(ro, v3_scale_spec(rd, t));
            let right = v3_normalize_spec(v3_cross_spec(n, q.up));
            let upv = v3_normalize_spec(v3_cross_spec(right, n));
            let rel = v3_sub_spec(p, q.center);
            let x = v3_dot_spec(rel, right);
            let y = v3_dot_spec(rel, upv);
            let hw = fx_mul_spec(q.width, HALF as int);
            let hh = fx_mul_spec(q.height, HALF as int);
            if x < sat_i64(-hw) || x > hw || y < sat_i64(-hh) || y > hh {
                no_hit_spec()
            } else {
                let shaded = if v3_dot_spec(rd, n) > 0 { v3_neg_spec(n) } else { n };
                HitV {
                    is_intersecting: true,
                    distance: t,
                    point: p,
                    normal: shaded,
                    material: q.material,
                    uv: (Vec2V {
                        x: half_extent_uv_spec(x, hw),
                        y: half_extent_uv_spec(y, hh),
                    }),
                    obj_id: oid,
                    tex_id: q.material.texture,
                }
            }
        }
    }
}

impl AnimatedQuad {
    /// Build a quad, normalizing the normal and orthogonalizing the up hint
    /// against it (a zero up hint falls back to +Y).
    pub fn new(
        center: Vec3,
        normal: Vec3,
        up: Vec3,
        width: i64,
        height: i64,
        material: Material,
    ) -> (r: AnimatedQuad)
        ensures
            r@.center == center@,
            r@.normal == quad_unit_normal_spec(normal@),
            r@.up == quad_unit_up_spec(normal@, up@),
            r@.width == width as int,
            r@.height == height as int,
            r@.material == material@,
    {
        let n = normal.normalized();
        let u0 = if up.length() == 0 { Vec3::new(0, FRAC, 0) } else { up };
        let u = u0.sub(n.scale(u0.dot(n))).normalized();
        AnimatedQuad { center, normal: n, up: u, width, height, material }
    }
}

impl RayIntersect for AnimatedQuad {
    /// Exact account of the bounded-plane test.
    fn ray_intersect(&self, ro: &Vec3, rd: &Vec3, obj_id: usize) -> (h: Hit)
        ensures h@ == quad_hit_spec(self@, ro@, rd@, obj_id as int),
    {
        let n = self.normal;
        let denom = n.dot(*rd);
        if fx_abs(denom) < QUAD_DENOM_EPS {
            return Hit::no_hit();
        }
        let t = fx_div(self.center.sub(*ro).dot(n), denom);
        if t <= T_EPS {
            return Hit::no_hit();
        }
        let p = ro.add(rd.scale(t));
        let right = n.cross(self.up).normalized();
        let upv = right.cross(n).normalized();
        let rel = p.sub(self.center);
        let x = rel.dot(right);
        let y = rel.dot(upv);
        let hw = fx_mul(self.width, HALF);
        let hh = fx_mul(self.height, HALF);
        if x < fx_neg(hw) || x > hw || y < fx_neg(hh) || y > hh {
            return Hit::no_hit();
        }
        let shaded = if rd.dot(n) > 0 { n.neg() } else { n };
        Hit {
            is_intersecting: true,
            distance: t,
            point: p,
            normal: shaded,
            material: self.material,
            uv: Vec2 { x: half_extent_uv(x, hw), y: half_extent_uv(y, hh) },
            obj_id,
            tex_id: self.material.texture,
        }
    }
}

} // verus!
