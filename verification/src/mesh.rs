//! Ray intersection with a triangle soup.
//!
//! Each triangle is tested Moller-Trumbore style — signed volume
//! determinant, then barycentric bounds — and the closest valid hit over a
//! linear scan wins.  Degenerate (near-parallel) triangles are skipped.
//! The normal is the flat face normal oriented against the ray; barycentric
//! coordinates stand in for texture coordinates.

use vstd::prelude::*;
use crate::fixed::{
    fx_add, fx_abs, fx_div, sat_i64, iabs, fx_div_spec, FRAC,
};
use crate::vec3::{
    Vec3, Vec3V, Vec2, Vec2V, v3_sub_spec, v3_add_spec, v3_scale_spec, v3_dot_spec,
    v3_cross_spec, v3_neg_spec, v3_normalize_spec,
};
use crate::material::{Material, MaterialV};
use crate::ray_intersect::{Hit, HitV, RayIntersect, no_hit_spec, T_EPS};
use crate::obj::{Obj, Triangle, TriangleV, triangles_spec};

verus! {

/// Determinants below one fixed-point unit (about 1.5e-5) count as
/// parallel: in this scale that is a determinant of exactly zero.
pub const MESH_DET_EPS: i64 = 1;

/// A triangle soup with one material for every face.
#[derive(Clone, Debug)]
pub struct Mesh {
    pub triangles: Vec<Triangle>,
    pub material: Material,
}

/// Ghost model of [`Mesh`].
pub ghost struct MeshV {
    pub triangles: Seq<TriangleV>,
    pub material: MaterialV,
}

impl View for Mesh {
    type V = MeshV;

    open spec fn view(&self) -> MeshV {
        MeshV {
            triangles: self.triangles@.map_values(|t: Triangle| t@),
            material: self.material@,
        }
    }
}

/// What one triangle reports for a ray: `None` for a degenerate triangle,
/// a barycentric rejection or a distance inside the epsilon; otherwise the
/// distance, hit point, opposing unit face normal, and the barycentric
/// pair reused as texture coordinates.
pub open spec fn tri_hit_spec(tri: TriangleV, ro: Vec3V, rd: Vec3V)
    -> Option<(int, Vec3V, Vec3V, Vec2V)>
{
    let e1 = v3_sub_spec(tri.v1, tri.v0);
    let e2 = v3_sub_spec(tri.v2, tri.v0);
    let pvec = v3_cross_spec(rd, e2);
    let det = v3_dot_spec(e1, pvec);
    if sat_i64(iabs(det)) < MESH_DET_EPS as int {
        None
    } else {
        let tvec = v3_sub_spec(ro, tri.v0);
        let u = fx_div_spec(v3_dot_spec(tvec, pvec), det);
        if u < 0 || u > FRAC as int {
            None
        } else {
            let qvec = v3_cross_spec(tvec, e1);
            let v = fx_div_spec(v3_dot_spec(rd, qvec), det);
            if v < 0 || sat_i64(u + v) > FRAC as int {
                None
            } else {
                let t = fx_div_spec(v3_dot_spec(e2, qvec), det);
                if t <= T_EPS as int {
                    None
                } else {
                    let point = v3_add_spec(ro, v3_scale_spec(rd, t));
                    let n0 = v3_normalize_spec(v3_cross_spec(e1, e2));
                    let n = if v3_dot_spec(rd, n0) > 0 { v3_neg_spec(n0) } else { n0 };
                    Some((t, point, n, Vec2V { x: u, y: v }))
                }
            }
        }
    }
}

/// The ghost reading of an executable per-triangle result.
pub open spec fn tri_hit_view(r: Option<(i64, Vec3, Vec3, Vec2)>) -> Option<(int, Vec3V, Vec3V, Vec2V)> {
    match r {
        None => None,
        Some((t, p, n, uv)) => Some((t as int, p@, n@, uv@)),
    }
}

fn tri_hit(tri: &Triangle, ro: &Vec3, rd: &Vec3) -> (r: Option<(i64, Vec3, Vec3, Vec2)>)
    ensures tri_hit_view(r) == tri_hit_spec(tri@, ro@, rd@),
{
    let e1 = tri.v1.sub(tri.v0);
    let e2 = tri.v2.sub(tri.v0);
    let pvec = rd.cross(e2);
    let det = e1.dot(pvec);
    if fx_abs(det) < MESH_DET_EPS {
        return None;
    }
    let tvec = ro.sub(tri.v0);
    let u = fx_div(tvec.dot(pvec), det);
    if u < 0 || u > FRAC {
        return None;
    }
    let qvec = tvec.cross(e1);
    let v = fx_div(rd.dot(qvec), det);
    if v < 0 || fx_add(u, v) > FRAC {
        return None;
    }
    let t = fx_div(e2.dot(qvec), det);
    if t <= T_EPS {
        return None;
    }
    let point = ro.add(rd.scale(t));
    let n0 = e1.cross(e2).normalized();
    let n = if rd.dot(n0) > 0 { n0.neg() } else { n0 };
    Some((t, point, n, Vec2 { x: u, y: v }))
}

/// The closest hit over the first `k` triangles, in scan order: a later
/// triangle replaces the running best only with a strictly smaller
/// distance.
pub open spec fn mesh_hit_upto_spec(m: MeshV, ro: Vec3V, rd: Vec3V, oid: int, k: int) -> HitV
    decreases k,
{
    if k <= 0 {
        no_hit_spec()
    } else {
        let prev = mesh_hit_upto_spec(m, ro, rd, oid, k - 1);
        match tri_hit_spec(m.triangles[k - 1], ro, rd) {
            None => prev,
            Some((t, p, n, uv)) => {
                if t < prev.distance {
                    HitV {
                        is_intersecting: true,
                        distance: t,
                        point: p,
                        normal: n,
                        material: m.material,
                        uv: uv,
                        obj_id: oid,
                        tex_id: m.material.texture,
                    }
                } else {
                    prev
                }
            },
        }
    }
}

/// The closest hit over the whole soup.
pub open spec fn mesh_hit_spec(m: MeshV, ro: Vec3V, rd: Vec3V, oid: int) -> HitV {
    mesh_hit_upto_spec(m, ro, rd, oid, m.triangles.len() as int)
}

/// A triangle transformed into the world: scaled, then offset.
pub open spec fn tri_transform_spec(t: TriangleV, offset: Vec3V, scale: int) -> TriangleV {
    TriangleV {
        v0: v3_add_spec(v3_scale_spec(t.v0, scale), offset),
        v1: v3_add_spec(v3_scale_spec(t.v1, scale), offset),
        v2: v3_add_spec(v3_scale_spec(t.v2, scale), offset),
    }
}

impl Mesh {
    /// Build a mesh from indexed triangle data: every assembled triangle,
    /// scaled and offset into the world, under one material.
    pub fn from_obj(obj: &Obj, material: Material, offset: Vec3, scale: i64) -> (r: Mesh)
        ensures
            r@.material == material@,
            r@.triangles =~= triangles_spec(obj@)
                .map_values(|t: TriangleV| tri_transform_spec(t, offset@, scale as int)),
    {
        let tris = obj.get_triangles();
        let mut triangles: Vec<Triangle> = Vec::new();
        let n = tris.len();
        let mut i: usize = 0;
        while i < n
            invariant
                i <= n,
                n == tris@.len(),
                triangles@.len() == i as int,
                forall|j: int| 0 <= j < i as int
                    ==> #[trigger] triangles@[j]@
                        == tri_transform_spec(tris@[j]@, offset@, scale as int),
            decreases n - i,
        {
            let tr = tris[i];
            triangles.push(Triangle {
                v0: tr.v0.scale(scale).add(offset),
                v1: tr.v1.scale(scale).add(offset),
                v2: tr.v2.scale(scale).add(offset),
            });
            i = i + 1;
        }
        proof {
            assert(triangles@.map_values(|t: Triangle| t@) =~= tris@.map_values(|t: Triangle| t@)
                .map_values(|t: TriangleV| tri_transform_spec(t, offset@, scale as int)));
        }
        Mesh { triangles, material }
    }
}

impl RayIntersect for Mesh {
    /// Exact account of the linear closest-hit scan.
    fn ray_intersect(&self, ro: &Vec3, rd: &Vec3, obj_id: usize) -> (h: Hit)
        ensures h@ == mesh_hit_spec(self@, ro@, rd@, obj_id as int),
    {
        let mut closest = Hit::no_hit();
        let n = self.triangles.len();
        let mut i: usize = 0;
        while i < n
            invariant
                i <= n,
                n == self.triangles@.len(),
                closest@ == mesh_hit_upto_spec(self@, ro@, rd@, obj_id as int, i as int),
                !closest.is_intersecting ==> closest@ == no_hit_spec(),
                closest.is_intersecting ==> closest.obj_id == obj_id && closest.distance > 0,
            decreases n - i,
        {
            match tri_hit(&self.triangles[i], ro, rd) {
                None => {},
                Some((t, p, nrm, uv)) => {
                    if t < closest.distance {
                        closest = Hit {
                            is_intersecting: true,
                            distance: t,
                            point: p,
                            normal: nrm,
                            material: self.material,
                            uv,
                            obj_id,
                            tex_id: self.material.texture,
                        };
                    }
                },
            }
            i = i + 1;
        }
        closest
    }
}

} // verus!
