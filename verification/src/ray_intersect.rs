//! The hit record and the intersection protocol.
//!
//! Every primitive answers a ray query with a [`Hit`].  When nothing is
//! struck the record is the canonical miss: flag down, distance at the
//! far sentinel, every other field zeroed or defaulted — callers may only
//! trust the fields of an intersecting record.

use vstd::prelude::*;
use crate::vec3::{Vec3, Vec3V, Vec2, Vec2V, v3_zero};
use crate::material::{Material, MaterialV, default_material_spec};

verus! {

/// Distances below this are rejected as self-intersection artifacts
/// (about 1e-4 in fixed-point units).
pub const T_EPS: i64 = 7;

/// Sentinel distance of a missing hit: farther than any real one.
pub const DIST_INF: i64 = i64::MAX;

/// Result of testing one ray against one primitive.
#[derive(Clone, Copy, Debug, PartialEq, Eq, Structural)]
pub struct Hit {
    pub is_intersecting: bool,
    pub distance: i64,
    pub point: Vec3,
    pub normal: Vec3,
    pub material: Material,
    pub uv: Vec2,
    pub obj_id: usize,
    pub tex_id: Option<char>,
}

/// Ghost model of [`Hit`].
pub ghost struct HitV {
    pub is_intersecting: bool,
    pub distance: int,
    pub point: Vec3V,
    pub normal: Vec3V,
    pub material: MaterialV,
    pub uv: Vec2V,
    pub obj_id: int,
    pub tex_id: Option<char>,
}

impl View for Hit {
    type V = HitV;

    open spec fn view(&self) -> HitV {
        HitV {
            is_intersecting: self.is_intersecting,
            distance: self.distance as int,
            point: self.point@,
            normal: self.normal@,
            material: self.material@,
            uv: self.uv@,
            obj_id: self.obj_id as int,
            tex_id: self.tex_id,
        }
    }
}

/// The canonical miss.
pub open spec fn no_hit_spec() -> HitV {
    HitV {
        is_intersecting: false,
        distance: DIST_INF as int,
        point: v3_zero(),
        normal: v3_zero(),
        material: default_material_spec(),
        uv: (Vec2V { x: 0, y: 0 }),
        obj_id: 0,
        tex_id: None,
    }
}

impl Hit {
    /// Build the canonical miss record.
    pub fn no_hit() -> (r: Hit)
        ensures r@ == no_hit_spec(),
    {
        Hit {
            is_intersecting: false,
            distance: DIST_INF,
            point: Vec3::zero(),
            normal: Vec3::zero(),
            material: Material::default(),
            uv: Vec2::zero(),
            obj_id: 0,
            tex_id: None,
        }
    }
}

/// The uniform intersection contract: a primitive either reports the
/// canonical miss, or an intersection at a positive distance carrying the
/// queried object index.  Implementations strengthen this with an exact
/// account of the hit they return.
pub trait RayIntersect {
    fn ray_intersect(&self, ro: &Vec3, rd: &Vec3, obj_id: usize) -> (h: Hit)
        ensures
            !h.is_intersecting ==> h@ == no_hit_spec(),
            h.is_intersecting ==> h.obj_id == obj_id && h.distance > 0,
    ;
}

} // verus!
