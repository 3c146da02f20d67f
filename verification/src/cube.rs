//! Ray intersection with an axis-aligned box.
//!
//! The three-axis slab test: each axis contributes an ordered entry/exit
//! pair (with a signed face id per slab plane), the overall entry is the
//! largest per-axis entry and the overall exit the smallest per-axis exit.
//! A ray starting outside hits at the entry face; one starting inside hits
//! at the exit face with the normal flipped to oppose the ray.  A direction
//! component of exactly zero is clamped to the smallest positive scalar
//! before dividing, so the slab bounds stay finite.  Each of the six faces
//! may carry its own texture id.

use vstd::prelude::*;
use crate::fixed::{
    fx_add, fx_sub, fx_div, fx_clamp, sat_i64, fx_div_spec, clamp_spec, moderate, FRAC, HALF,
};
use crate::vec3::{Vec3, Vec3V, Vec2, Vec2V, v3, v3_add_spec, v3_scale_spec};
use crate::material::{
    Material, MaterialV, dirt, stone, obsidian, glass, lamp, grass,
    dirt_spec, stone_spec, obsidian_spec, glass_spec, lamp_spec, grass_spec,
};
use crate::ray_intersect::{Hit, HitV, RayIntersect, no_hit_spec, T_EPS};

verus! {

/// An axis-aligned box with a texture id per face, in the order
/// +X, -X, +Y, -Y, +Z, -Z.
#[derive(Clone, Copy, Debug)]
pub struct Cube {
    pub min: Vec3,
    pub max: Vec3,
    pub material: Material,
    pub face_textures: [Option<char>; 6],
}

/// Ghost model of [`Cube`].
pub ghost struct CubeV {
    pub min: Vec3V,
    pub max: Vec3V,
    pub material: MaterialV,
    pub face_textures: Seq<Option<char>>,
}

impl View for Cube {
    type V = CubeV;

    open spec fn view(&self) -> CubeV {
        CubeV {
            min: self.min@,
            max: self.max@,
            material: self.material@,
            face_textures: self.face_textures@,
        }
    }
}

/// Entry and exit distances of one axis slab, ordered: the plane offsets
/// divided by the (zero-clamped) direction component, smaller first.
pub open spec fn slab_spec(o: int, d: int, minv: int, maxv: int) -> (int, int) {
    let ds = if d == 0 { 1 } else { d };
    let ta = fx_div_spec(sat_i64(minv - o), ds);
    let tb = fx_div_spec(sat_i64(maxv - o), ds);
    if ta <= tb { (ta, tb) } else { (tb, ta) }
}

fn axis_slab(o: i64, d: i64, minv: i64, maxv: i64) -> (r: (i64, i64))
    ensures
        r.0 as int == slab_spec(o as int, d as int, minv as int, maxv as int).0,
        r.1 as int == slab_spec(o as int, d as int, minv as int, maxv as int).1,
{
    let ds = if d == 0 { 1 } else { d };
    let ta = fx_div(fx_sub(minv, o), ds);
    let tb = fx_div(fx_sub(maxv, o), ds);
    if ta <= tb { (ta, tb) } else { (tb, ta) }
}

/// The outward unit normal of a signed face id (+1/-1 for +X/-X and so on).
pub open spec fn face_normal_spec(face: int) -> Vec3V {
    if face == -1 { v3(-(FRAC as int), 0, 0) }
    else if face == 1 { v3(FRAC as int, 0, 0) }
    else if face == -2 { v3(0, -(FRAC as int), 0) }
    else if face == 2 { v3(0, FRAC as int, 0) }
    else if face == -3 { v3(0, 0, -(FRAC as int)) }
    else { v3(0, 0, FRAC as int) }
}

fn face_normal(face: i32) -> (r: Vec3)
    ensures r@ == face_normal_spec(face as int),
{
    if face == -1 { Vec3::new(-FRAC, 0, 0) }
    else if face == 1 { Vec3::new(FRAC, 0, 0) }
    else if face == -2 { Vec3::new(0, -FRAC, 0) }
    else if face == 2 { Vec3::new(0, FRAC, 0) }
    else if face == -3 { Vec3::new(0, 0, -FRAC) }
    else { Vec3::new(0, 0, FRAC) }
}

/// Offset into the box divided by its extent; a zero extent (a degenerate
/// box) yields coordinate zero rather than a division failure.
pub open spec fn extent_frac_spec(a: int, size: int) -> int {
    if size == 0 { 0 } else { fx_div_spec(a, size) }
}

fn extent_frac(a: i64, size: i64) -> (r: i64)
    ensures r as int == extent_frac_spec(a as int, size as int),
{
    if size == 0 { 0 } else { fx_div(a, size) }
}

/// Texture coordinates of a hit point on a given face: the point projected
/// onto the face's two axes, normalized to the box extent, with the flips
/// that keep orientation consistent on opposite faces, clamped to `[0, 1]`.
pub open spec fn cube_uv_spec(c: CubeV, p: Vec3V, face: int) -> Vec2V {
    let sx = sat_i64(c.max.x - c.min.x);
    let sy = sat_i64(c.max.y - c.min.y);
    let sz = sat_i64(c.max.z - c.min.z);
    let fu = if face == -1 {
        extent_frac_spec(sat_i64(p.z - c.min.z), sz)
    } else if face == 1 {
        sat_i64(FRAC as int - extent_frac_spec(sat_i64(p.z - c.min.z), sz))
    } else if face == -2 || face == 2 {
        extent_frac_spec(sat_i64(p.x - c.min.x), sx)
    } else if face == -3 {
        extent_frac_spec(sat_i64(p.x - c.min.x), sx)
    } else {
        sat_i64(FRAC as int - extent_frac_spec(sat_i64(p.x - c.min.x), sx))
    };
    let fv = if face == -1 || face == 1 {
        extent_frac_spec(sat_i64(p.y - c.min.y), sy)
    } else if face == -2 {
        extent_frac_spec(sat_i64(p.z - c.min.z), sz)
    } else if face == 2 {
        sat_i64(FRAC as int - extent_frac_spec(sat_i64(p.z - c.min.z), sz))
    } else {
        extent_frac_spec(sat_i64(p.y - c.min.y), sy)
    };
    Vec2V {
        x: clamp_spec(fu, 0, FRAC as int),
        y: clamp_spec(fv, 0, FRAC as int),
    }
}

fn cube_uv(c: &Cube, p: Vec3, face: i32) -> (r: Vec2)
    ensures r@ == cube_uv_spec(c@, p@, face as int),
{
    let sx = fx_sub(c.max.x, c.min.x);
    let sy = fx_sub(c.max.y, c.min.y);
    let sz = fx_sub(c.max.z, c.min.z);
    let fu = if face == -1 {
        extent_frac(fx_sub(p.z, c.min.z), sz)
    } else if face == 1 {
        fx_sub(FRAC, extent_frac(fx_sub(p.z, c.min.z), sz))
    } else if face == -2 || face == 2 {
        extent_frac(fx_sub(p.x, c.min.x), sx)
    } else if face == -3 {
        extent_frac(fx_sub(p.x, c.min.x), sx)
    } else {
        fx_sub(FRAC, extent_frac(fx_sub(p.x, c.min.x), sx))
    };
    let fv = if face == -1 || face == 1 {
        extent_frac(fx_sub(p.y, c.min.y), sy)
    } else if face == -2 {
        extent_frac(fx_sub(p.z, c.min.z), sz)
    } else if face == 2 {
        fx_sub(FRAC, extent_frac(fx_sub(p.z, c.min.z), sz))
    } else {
        extent_frac(fx_sub(p.y, c.min.y), sy)
    };
    Vec2 { x: fx_clamp(fu, 0, FRAC), y: fx_clamp(fv, 0, FRAC) }
}

/// The texture id stored for a signed face id.
pub open spec fn tex_for_face_spec(c: CubeV, face: int) -> Option<char> {
    if c.face_textures.len() == 6 {
        if face == 1 { c.face_textures[0] }
        else if face == -1 { c.face_textures[1] }
        else if face == 2 { c.face_textures[2] }
        else if face == -2 { c.face_textures[3] }
        else if face == 3 { c.face_textures[4] }
        else if face == -3 { c.face_textures[5] }
        else { None }
    } else {
        None
    }
}

/// The overall hit the slab test reports: entry/exit interval intersection,
/// rejection when empty or entirely behind the self-intersection epsilon
/// (the shared [`T_EPS`]), entry face for rays starting outside and flipped
/// exit face for rays starting inside.
pub open spec fn cube_hit_spec(c: CubeV, ro: Vec3V, rd: Vec3V, oid: int) -> HitV {
    let tx = slab_spec(ro.x, rd.x, c.min.x, c.max.x);
    let ty = slab_spec(ro.y, rd.y, c.min.y, c.max.y);
    let tz = slab_spec(ro.z, rd.z, c.min.z, c.max.z);
    let fx1 = if rd.x >= 0 { -1int } else { 1int };
    let fx2 = -fx1;
    let fy1 = if rd.y >= 0 { -2int } else { 2int };
    let fy2 = -fy1;
    let fz1 = if rd.z >= 0 { -3int } else { 3int };
    let fz2 = -fz1;
    let te1 = tx.0;
    let fe1 = fx1;
    let te2 = if ty.0 > te1 { ty.0 } else { te1 };
    let fe2 = if ty.0 > te1 { fy1 } else { fe1 };
    let t_enter = if tz.0 > te2 { tz.0 } else { te2 };
    let face_enter = if tz.0 > te2 { fz1 } else { fe2 };
    let to1 = tx.1;
    let fo1 = fx2;
    let to2 = if ty.1 < to1 { ty.1 } else { to1 };
    let fo2 = if ty.1 < to1 { fy2 } else { fo1 };
    let t_exit = if tz.1 < to2 { tz.1 } else { to2 };
    let face_exit = if tz.1 < to2 { fz2 } else { fo2 };
    if t_enter > t_exit || t_exit < T_EPS as int {
        no_hit_spec()
    } else {
        let t = if t_enter > T_EPS as int { t_enter } else { t_exit };
        let face = if t_enter > T_EPS as int { face_enter } else { -face_exit };
        let point = v3_add_spec(ro, v3_scale_spec(rd, t));
        HitV {
            is_intersecting: true,
            distance: t,
            point: point,
            normal: face_normal_spec(face),
            material: c.material,
            uv: cube_uv_spec(c, point, face),
            obj_id: oid,
            tex_id: tex_for_face_spec(c, face),
        }
    }
}

/// Whatever face a box reports — the entry face from outside, or the
/// flipped exit face from inside — its normal never points along the ray:
/// the dot product of the reported normal with the ray direction is never
/// positive.
pub proof fn lemma_cube_normal_opposes(c: CubeV, ro: Vec3V, rd: Vec3V, oid: int)
    ensures cube_hit_spec(c, ro, rd, oid).is_intersecting
        ==> crate::vec3::v3_dot_spec(cube_hit_spec(c, ro, rd, oid).normal, rd) <= 0,
{
    let h = cube_hit_spec(c, ro, rd, oid);
    if h.is_intersecting {
        let fx1: int = if rd.x >= 0 { -1int } else { 1int };
        let fy1: int = if rd.y >= 0 { -2int } else { 2int };
        let fz1: int = if rd.z >= 0 { -3int } else { 3int };
        let face = h_face(c, ro, rd);
        assert(face == fx1 || face == fy1 || face == fz1);
        assert(h.normal == face_normal_spec(face));
        crate::math::lemma_fx_mul_zero(rd.x);
        crate::math::lemma_fx_mul_zero(rd.y);
        crate::math::lemma_fx_mul_zero(rd.z);
        crate::fixed::lemma_fx_mul_spec_sign(-(FRAC as int), rd.x);
        crate::fixed::lemma_fx_mul_spec_sign(FRAC as int, rd.x);
        crate::fixed::lemma_fx_mul_spec_sign(-(FRAC as int), rd.y);
        crate::fixed::lemma_fx_mul_spec_sign(FRAC as int, rd.y);
        crate::fixed::lemma_fx_mul_spec_sign(-(FRAC as int), rd.z);
        crate::fixed::lemma_fx_mul_spec_sign(FRAC as int, rd.z);
    }
}

/// A unit box with moderate coordinates.
pub open spec fn unit_cube(c: CubeV) -> bool {
    &&& c.max.x == c.min.x + FRAC as int
    &&& c.max.y == c.min.y + FRAC as int
    &&& c.max.z == c.min.z + FRAC as int
    &&& moderate(c.min.x) && moderate(c.min.y) && moderate(c.min.z)
}

/// A ray fired along any of the six axis directions straight at a unit
/// cube's center from two units outside reports exactly the entered
/// face's outward normal, at exactly two units' distance.
pub proof fn lemma_cube_axis_ray_normals(c: CubeV)
    requires unit_cube(c),
    ensures
        axis_ray_reports(c,
            v3(c.min.x + (HALF as int), c.min.y + (HALF as int), c.min.z + 3 * (FRAC as int)),
            v3(0, 0, -(FRAC as int)), v3(0, 0, FRAC as int)),
        axis_ray_reports(c,
            v3(c.min.x + (HALF as int), c.min.y + (HALF as int), c.min.z - 2 * (FRAC as int)),
            v3(0, 0, FRAC as int), v3(0, 0, -(FRAC as int))),
        axis_ray_reports(c,
            v3(c.min.x + (HALF as int), c.min.y + 3 * (FRAC as int), c.min.z + (HALF as int)),
            v3(0, -(FRAC as int), 0), v3(0, FRAC as int, 0)),
        axis_ray_reports(c,
            v3(c.min.x + (HALF as int), c.min.y - 2 * (FRAC as int), c.min.z + (HALF as int)),
            v3(0, FRAC as int, 0), v3(0, -(FRAC as int), 0)),
        axis_ray_reports(c,
            v3(c.min.x + 3 * (FRAC as int), c.min.y + (HALF as int), c.min.z + (HALF as int)),
            v3(-(FRAC as int), 0, 0), v3(FRAC as int, 0, 0)),
        axis_ray_reports(c,
            v3(c.min.x - 2 * (FRAC as int), c.min.y + (HALF as int), c.min.z + (HALF as int)),
            v3(FRAC as int, 0, 0), v3(-(FRAC as int), 0, 0)),
{
    lemma_unit_slabs(c.min.x, c.min.x + (HALF as int), 0);
    lemma_unit_slabs(c.min.y, c.min.y + (HALF as int), 0);
    lemma_unit_slabs(c.min.z, c.min.z + (HALF as int), 0);
    lemma_unit_slabs(c.min.x, c.min.x + 3 * (FRAC as int), -(FRAC as int));
    lemma_unit_slabs(c.min.y, c.min.y + 3 * (FRAC as int), -(FRAC as int));
    lemma_unit_slabs(c.min.z, c.min.z + 3 * (FRAC as int), -(FRAC as int));
    lemma_unit_slabs(c.min.x, c.min.x - 2 * (FRAC as int), FRAC as int);
    lemma_unit_slabs(c.min.y, c.min.y - 2 * (FRAC as int), FRAC as int);
    lemma_unit_slabs(c.min.z, c.min.z - 2 * (FRAC as int), FRAC as int);
}

/// One canonical axis ray strikes the expected face: a hit at exactly two
/// units, with the given outward normal.
pub open spec fn axis_ray_reports(c: CubeV, ro: Vec3V, rd: Vec3V, n: Vec3V) -> bool {
    let h = cube_hit_spec(c, ro, rd, 0);
    h.is_intersecting && h.normal == n && h.distance == 2 * (FRAC as int)
}

/// The slab interval of one axis of a unit box in the three situations the
/// canonical rays meet: a zero direction component (origin at the axis
/// middle) yields a huge symmetric interval, and a whole-unit component
/// aimed from two units outside yields exactly `[2, 3]`.
proof fn lemma_unit_slabs(minv: int, o: int, d: int)
    requires
        moderate(minv),
        d == 0 ==> o == minv + HALF as int,
        d == -(FRAC as int) ==> o == minv + 3 * (FRAC as int),
        d == FRAC as int ==> o == minv - 2 * (FRAC as int),
        d == 0 || d == -(FRAC as int) || d == FRAC as int,
    ensures
        d == 0 ==> slab_spec(o, d, minv, minv + FRAC as int)
            == (-(HALF as int) * (FRAC as int), (HALF as int) * (FRAC as int)),
        d != 0 ==> slab_spec(o, d, minv, minv + FRAC as int)
            == (2 * (FRAC as int), 3 * (FRAC as int)),
{
    if d == 0 {
        assert(sat_i64(minv - o) == -(HALF as int));
        assert(fx_div_spec(-(HALF as int), 1) == -(HALF as int) * (FRAC as int)) by {
            lemma_div_tz_unit(-(HALF as int) * (FRAC as int));
        }
        assert(fx_div_spec(HALF as int, 1) == (HALF as int) * (FRAC as int)) by {
            lemma_div_tz_unit((HALF as int) * (FRAC as int));
        }
    } else if d == -(FRAC as int) {
        assert(sat_i64(minv - o) == -3 * (FRAC as int));
        assert(fx_div_spec(-3 * (FRAC as int), -(FRAC as int)) == 3 * (FRAC as int)) by {
            lemma_div_tz_frac(-3 * (FRAC as int));
        }
        assert(fx_div_spec(-2 * (FRAC as int), -(FRAC as int)) == 2 * (FRAC as int)) by {
            lemma_div_tz_frac(-2 * (FRAC as int));
        }
        assert(sat_i64(minv + FRAC as int - o) == -2 * (FRAC as int));
    } else {
        assert(sat_i64(minv - o) == 2 * (FRAC as int));
        assert(fx_div_spec(2 * (FRAC as int), FRAC as int) == 2 * (FRAC as int)) by {
            lemma_div_tz_pos(2 * (FRAC as int));
        }
        assert(fx_div_spec(3 * (FRAC as int), FRAC as int) == 3 * (FRAC as int)) by {
            lemma_div_tz_pos(3 * (FRAC as int));
        }
        assert(sat_i64(minv + FRAC as int - o) == 3 * (FRAC as int));
    }
}

/// A ray cast along -Z from any origin strictly inside a unit cube — at
/// least the self-intersection epsilon above the bottom face — reports a
/// hit at the exit point: on the bottom face's plane, at the origin's
/// height above it, with the exit normal flipped so that it still opposes
/// the ray.
pub proof fn lemma_cube_inside_ray_exits(c: CubeV, ro: Vec3V)
    requires
        unit_cube(c),
        c.min.x < ro.x < c.max.x,
        c.min.y < ro.y < c.max.y,
        c.min.z + (T_EPS as int) < ro.z && ro.z < c.max.z,
    ensures ({
        let rd = v3(0, 0, -(FRAC as int));
        let h = cube_hit_spec(c, ro, rd, 0);
        &&& h.is_intersecting
        &&& h.distance == ro.z - c.min.z
        &&& h.point.z == c.min.z
        &&& h.normal == v3(0, 0, FRAC as int)
        &&& crate::vec3::v3_dot_spec(h.normal, rd) <= 0
    }),
{
    let rd = v3(0, 0, -(FRAC as int));
    let dz = ro.z - c.min.z;
    lemma_inside_slab_still(c.min.x, ro.x);
    lemma_inside_slab_still(c.min.y, ro.y);
    // the z slab seen from inside: the ray entered dz - 1 units ago and
    // leaves dz units ahead
    assert(fx_div_spec(-dz, -(FRAC as int)) == dz) by {
        lemma_div_tz_frac(-dz);
    }
    assert(fx_div_spec(FRAC as int - dz, -(FRAC as int)) == dz - FRAC as int) by {
        lemma_div_tz_negdiv(FRAC as int - dz);
    }
    assert(slab_spec(ro.z, rd.z, c.min.z, c.min.z + FRAC as int)
        == (dz - FRAC as int, dz));
    // the scaled step back to the exit plane
    assert(crate::fixed::fx_mul_spec(rd.z, dz) == -dz) by {
        crate::fixed::lemma_mul_sign(-65536int, dz);
        crate::fixed::lemma_abs_mul(-65536int, dz);
        vstd::arithmetic::div_mod::lemma_div_by_multiple(dz, 65536int);
        assert(65536 * dz == dz * 65536) by (nonlinear_arith);
    }
    lemma_cube_normal_opposes(c, ro, rd, 0);
}

/// The slab interval of an axis whose direction component is zero, seen
/// from an origin strictly inside the extent: it reaches at least a whole
/// unit out on both sides, so it never decides the entry or exit.
proof fn lemma_inside_slab_still(minv: int, o: int)
    requires moderate(minv), minv < o < minv + FRAC as int,
    ensures ({
        let s = slab_spec(o, 0, minv, minv + FRAC as int);
        s.0 <= -(FRAC as int) && s.1 >= FRAC as int
    }),
{
    lemma_div_tz_unit((minv - o) * (FRAC as int));
    lemma_div_tz_unit((minv + FRAC as int - o) * (FRAC as int));
    assert((minv - o) * 65536 <= -65536 && -0x2_0000_0000_0000int <= (minv - o) * 65536)
        by (nonlinear_arith)
        requires -65536 <= minv - o <= -1;
    assert((minv + 65536 - o) * 65536 >= 65536 && (minv + 65536 - o) * 65536 <= 0x2_0000_0000_0000int)
        by (nonlinear_arith)
        requires 1 <= minv + 65536 - o <= 65536;
}

/// A nonnegative value times one unit, divided toward zero by minus one
/// unit, cancels to the value's negation.
proof fn lemma_div_tz_negdiv(a: int)
    requires a >= 0,
    ensures crate::fixed::div_tz(a * (FRAC as int), -(FRAC as int)) == -a,
{
    crate::fixed::lemma_mul_sign(a, FRAC as int);
    assert(crate::fixed::iabs(a * (FRAC as int)) == a * (FRAC as int)) by (nonlinear_arith)
        requires a >= 0;
    vstd::arithmetic::div_mod::lemma_div_by_multiple(a, FRAC as int);
}

/// Division toward zero by one is the identity.
proof fn lemma_div_tz_unit(a: int)
    ensures crate::fixed::div_tz(a, 1) == a,
{
    vstd::arithmetic::div_mod::lemma_div_by_self(1int);
    assert(crate::fixed::iabs(a) / 1 == crate::fixed::iabs(a)) by (nonlinear_arith);
}

/// A negative value times one unit, divided toward zero by minus one
/// unit, cancels back to the value's magnitude.
proof fn lemma_div_tz_frac(a: int)
    requires a < 0,
    ensures crate::fixed::div_tz(a * (FRAC as int), -(FRAC as int)) == -a,
{
    crate::fixed::lemma_mul_sign(a, FRAC as int);
    assert(crate::fixed::iabs(a * (FRAC as int)) == (-a) * (FRAC as int)) by (nonlinear_arith)
        requires a < 0;
    vstd::arithmetic::div_mod::lemma_div_by_multiple(-a, FRAC as int);
}

/// A nonnegative value times one unit, divided toward zero by one unit,
/// cancels back to the value.
proof fn lemma_div_tz_pos(a: int)
    requires a >= 0,
    ensures crate::fixed::div_tz(a * (FRAC as int), FRAC as int) == a,
{
    crate::fixed::lemma_mul_sign(a, FRAC as int);
    assert(crate::fixed::iabs(a * (FRAC as int)) == a * (FRAC as int)) by (nonlinear_arith)
        requires a >= 0;
    vstd::arithmetic::div_mod::lemma_div_by_multiple(a, FRAC as int);
}

/// The signed face id an intersecting box hit reports: the entry face for
/// a ray starting outside, the exit face flipped for one starting inside.
pub open spec fn h_face(c: CubeV, ro: Vec3V, rd: Vec3V) -> int {
    let tx = slab_spec(ro.x, rd.x, c.min.x, c.max.x);
    let ty = slab_spec(ro.y, rd.y, c.min.y, c.max.y);
    let tz = slab_spec(ro.z, rd.z, c.min.z, c.max.z);
    let fx1 = if rd.x >= 0 { -1int } else { 1int };
    let fy1 = if rd.y >= 0 { -2int } else { 2int };
    let fz1 = if rd.z >= 0 { -3int } else { 3int };
    let te1 = tx.0;
    let fe1 = fx1;
    let te2 = if ty.0 > te1 { ty.0 } else { te1 };
    let fe2 = if ty.0 > te1 { fy1 } else { fe1 };
    let t_enter = if tz.0 > te2 { tz.0 } else { te2 };
    let face_enter = if tz.0 > te2 { fz1 } else { fe2 };
    let to1 = tx.1;
    let fo1 = -fx1;
    let to2 = if ty.1 < to1 { ty.1 } else { to1 };
    let fo2 = if ty.1 < to1 { -fy1 } else { fo1 };
    let t_exit = if tz.1 < to2 { tz.1 } else { to2 };
    let face_exit = if tz.1 < to2 { -fz1 } else { fo2 };
    if t_enter > T_EPS as int { face_enter } else { -face_exit }
}

impl RayIntersect for Cube {
    /// Exact account of the three-axis slab test.
    fn ray_intersect(&self, ro: &Vec3, rd: &Vec3, obj_id: usize) -> (h: Hit)
        ensures h@ == cube_hit_spec(self@, ro@, rd@, obj_id as int),
    {
        let (tx1, tx2) = axis_slab(ro.x, rd.x, self.min.x, self.max.x);
        let (ty1, ty2) = axis_slab(ro.y, rd.y, self.min.y, self.max.y);
        let (tz1, tz2) = axis_slab(ro.z, rd.z, self.min.z, self.max.z);
        let (fx1, fx2): (i32, i32) = if rd.x >= 0 { (-1, 1) } else { (1, -1) };
        let (fy1, fy2): (i32, i32) = if rd.y >= 0 { (-2, 2) } else { (2, -2) };
        let (fz1, fz2): (i32, i32) = if rd.z >= 0 { (-3, 3) } else { (3, -3) };

        let mut t_enter = tx1;
        let mut face_enter = fx1;
        if ty1 > t_enter {
            t_enter = ty1;
            face_enter = fy1;
        }
        if tz1 > t_enter {
            t_enter = tz1;
            face_enter = fz1;
        }

        let mut t_exit = tx2;
        let mut face_exit = fx2;
        if ty2 < t_exit {
            t_exit = ty2;
            face_exit = fy2;
        }
        if tz2 < t_exit {
            t_exit = tz2;
            face_exit = fz2;
        }

        if t_enter > t_exit || t_exit < T_EPS {
            return Hit::no_hit();
        }

        let (t, face) = if t_enter > T_EPS {
            (t_enter, face_enter)
        } else {
            (t_exit, -face_exit)
        };

        let point = ro.add(rd.scale(t));
        Hit {
            is_intersecting: true,
            distance: t,
            point,
            normal: face_normal(face),
            material: self.material,
            uv: cube_uv(self, point, face),
            obj_id,
            tex_id: self.tex_for_face(face),
        }
    }
}

impl Cube {
    /// A unit block whose near corner sits at `(x, y, z)`, with the material
    /// its texture letter names and that letter on all six faces.
    pub fn new(x: i64, y: i64, z: i64, tex: char) -> (r: Cube)
        ensures
            r@.min == v3(x as int, y as int, z as int),
            r@.max == v3(sat_i64(x + FRAC as int), sat_i64(y + FRAC as int), sat_i64(z + FRAC as int)),
            r@.material == (if tex == '+' { stone_spec() }
                else if tex == '-' { obsidian_spec() }
                else if tex == '#' { dirt_spec() }
                else if tex == 't' { glass_spec() }
                else if tex == 'l' { lamp_spec() }
                else { dirt_spec() }),
            r@.face_textures =~= seq![
                Some(tex), Some(tex), Some(tex), Some(tex), Some(tex), Some(tex)],
    {
        Cube {
            min: Vec3::new(x, y, z),
            max: Vec3::new(fx_add(x, FRAC), fx_add(y, FRAC), fx_add(z, FRAC)),
            material: if tex == '+' { stone() }
                else if tex == '-' { obsidian() }
                else if tex == '#' { dirt() }
                else if tex == 't' { glass() }
                else if tex == 'l' { lamp() }
                else { dirt() },
            face_textures: [Some(tex), Some(tex), Some(tex), Some(tex), Some(tex), Some(tex)],
        }
    }

    /// A unit turf block: mossy top, soil bottom, sided faces.
    pub fn grass_block(x: i64, y: i64, z: i64) -> (r: Cube)
        ensures
            r@.min == v3(x as int, y as int, z as int),
            r@.max == v3(sat_i64(x + FRAC as int), sat_i64(y + FRAC as int), sat_i64(z + FRAC as int)),
            r@.material == grass_spec(),
            r@.face_textures =~= seq![
                Some('|'), Some('|'), Some('g'), Some('#'), Some('|'), Some('|')],
    {
        Cube {
            min: Vec3::new(x, y, z),
            max: Vec3::new(fx_add(x, FRAC), fx_add(y, FRAC), fx_add(z, FRAC)),
            material: grass(),
            face_textures: [Some('|'), Some('|'), Some('g'), Some('#'), Some('|'), Some('|')],
        }
    }

    /// The texture id stored for a signed face id.
    pub fn tex_for_face(&self, face: i32) -> (r: Option<char>)
        ensures r == tex_for_face_spec(self@, face as int),
    {
        if face == 1 { self.face_textures[0] }
        else if face == -1 { self.face_textures[1] }
        else if face == 2 { self.face_textures[2] }
        else if face == -2 { self.face_textures[3] }
        else if face == 3 { self.face_textures[4] }
        else if face == -3 { self.face_textures[5] }
        else { None }
    }
}

} // verus!
