//! The scene's primitive kinds and their shared dispatch.
//!
//! A scene is an ordered list of [`Object`] values; an object's position in
//! that list is its identity (`obj_id`), which lights use to skip their own
//! emitter when casting shadow rays.

use vstd::prelude::*;
use crate::fixed::FRAC;
use crate::vec3::{Vec3, Vec3V, v3};
use crate::material::{Material, portal, portal_spec, default_material_spec, grass_spec,
    stone_spec, obsidian_spec, dirt_spec, glass_spec, lamp_spec};
use crate::ray_intersect::{Hit, HitV, RayIntersect};
use crate::sphere::{Sphere, sphere_hit_spec};
use crate::cube::{Cube, cube_hit_spec};
use crate::quad::{AnimatedQuad, quad_hit_spec, quad_unit_normal_spec, quad_unit_up_spec};
use crate::mesh::{Mesh, mesh_hit_spec, tri_transform_spec};
use crate::obj::{Obj, triangles_spec};

verus! {

/// A renderable primitive.
#[derive(Clone, Debug)]
pub enum Object {
    Sphere(Sphere),
    Cube(Cube),
    AnimatedQuad(AnimatedQuad),
    Mesh(Mesh),
}

/// The hit an object reports: its active variant's intersection test, with
/// the object index threaded through unchanged.  Opaque: callers reason
/// through the dispatch contract, not through the variants' bodies.
#[verifier::opaque]
pub open spec fn object_hit_spec(o: Object, ro: Vec3V, rd: Vec3V, oid: int) -> HitV {
    match o {
        Object::Sphere(s) => sphere_hit_spec(s@, ro, rd, oid),
        Object::Cube(c) => cube_hit_spec(c@, ro, rd, oid),
        Object::AnimatedQuad(q) => quad_hit_spec(q@, ro, rd, oid),
        Object::Mesh(m) => mesh_hit_spec(m@, ro, rd, oid),
    }
}

impl RayIntersect for Object {
    /// Dispatch to the active variant.
    fn ray_intersect(&self, ro: &Vec3, rd: &Vec3, obj_id: usize) -> (h: Hit)
        ensures h@ == object_hit_spec(*self, ro@, rd@, obj_id as int),
    {
        proof {
            reveal(object_hit_spec);
        }
        match self {
            Object::Sphere(s) => s.ray_intersect(ro, rd, obj_id),
            Object::Cube(c) => c.ray_intersect(ro, rd, obj_id),
            Object::AnimatedQuad(q) => q.ray_intersect(ro, rd, obj_id),
            Object::Mesh(m) => m.ray_intersect(ro, rd, obj_id),
        }
    }
}

/// No primitive ever reports an intersection closer than the
/// self-intersection epsilon: smaller distances are rejected, so a ray
/// restarted with any positive bias off a surface cannot see that surface
/// at a vanishing distance.
pub proof fn lemma_no_hit_below_epsilon(o: Object, ro: Vec3V, rd: Vec3V, oid: int)
    ensures object_hit_spec(o, ro, rd, oid).is_intersecting
        ==> object_hit_spec(o, ro, rd, oid).distance >= crate::ray_intersect::T_EPS as int,
{
    reveal(object_hit_spec);
    if let Object::Mesh(m) = o {
        lemma_mesh_hit_past_epsilon(m@, ro, rd, oid, m@.triangles.len() as int);
    }
}

/// Every intersecting prefix scan of a mesh reports a distance past the
/// self-intersection epsilon.
proof fn lemma_mesh_hit_past_epsilon(m: crate::mesh::MeshV, ro: Vec3V, rd: Vec3V, oid: int, k: int)
    ensures crate::mesh::mesh_hit_upto_spec(m, ro, rd, oid, k).is_intersecting
        ==> crate::mesh::mesh_hit_upto_spec(m, ro, rd, oid, k).distance
            > crate::ray_intersect::T_EPS as int,
    decreases k,
{
    if k > 0 {
        lemma_mesh_hit_past_epsilon(m, ro, rd, oid, k - 1);
    }
}

/// A unit block at the given corner whose six faces carry `tex`, with the
/// material that letter names.
pub open spec fn is_block_at(o: Object, x: int, y: int, z: int, tex: char) -> bool {
    &&& o matches Object::Cube(c)
    &&& o matches Object::Cube(c) ==> {
        &&& c@.min == v3(x, y, z)
        &&& c@.max == v3(x + FRAC as int, y + FRAC as int, z + FRAC as int)
        &&& c@.material == (if tex == '+' { stone_spec() }
            else if tex == '-' { obsidian_spec() }
            else if tex == '#' { dirt_spec() }
            else if tex == 't' { glass_spec() }
            else if tex == 'l' { lamp_spec() }
            else { dirt_spec() })
        &&& c@.face_textures =~= seq![Some(tex), Some(tex), Some(tex), Some(tex), Some(tex), Some(tex)]
    }
}

/// A portal pane: a unit quad facing +X at the given center.
pub open spec fn is_portal_pane_at(o: Object, cx: int, cy: int, cz: int) -> bool {
    &&& o matches Object::AnimatedQuad(q)
    &&& o matches Object::AnimatedQuad(q) ==> {
        &&& q@.center == v3(cx, cy, cz)
        &&& q@.normal == quad_unit_normal_spec(v3(FRAC as int, 0, 0))
        &&& q@.up == quad_unit_up_spec(v3(FRAC as int, 0, 0), v3(0, FRAC as int, 0))
        &&& q@.width == FRAC as int
        &&& q@.height == FRAC as int
        &&& q@.material == portal_spec()
    }
}

/// The demonstration scene: a mesh assembled from the given vertex data at
/// the center of a small block build — two lamp blocks, a turf block, a
/// glass block, stone footings, an obsidian frame holding six animated
/// portal panes.
pub fn sample_objects(ship: &Obj) -> (r: Vec<Object>)
    ensures
        r@.len() == 23,
        r@[0] matches Object::Mesh(m) && (r@[0] matches Object::Mesh(m) ==> {
            &&& m@.material == default_material_spec()
            &&& m@.triangles =~= triangles_spec(ship@).map_values(
                |t: crate::obj::TriangleV| tri_transform_spec(t, v3(0, 0, -5 * FRAC as int), FRAC as int))
        }),
        is_block_at(r@[1], -3 * FRAC as int, FRAC as int, 0, 'l'),
        is_block_at(r@[2], 6 * FRAC as int, FRAC as int, -(FRAC as int), 'l'),
        r@[3] matches Object::Cube(c) && (r@[3] matches Object::Cube(c) ==> {
            &&& c@.min == v3(0, -(FRAC as int), 0)
            &&& c@.material == grass_spec()
            &&& c@.face_textures =~= seq![
                Some('|'), Some('|'), Some('g'), Some('#'), Some('|'), Some('|')]
        }),
        is_block_at(r@[4], 0, 0, 0, 't'),
        is_block_at(r@[5], 0, -2 * FRAC as int, 0, '+'),
        is_block_at(r@[6], 0, -2 * FRAC as int, -(FRAC as int), '+'),
        is_block_at(r@[7], FRAC as int, -(FRAC as int), 0, '-'),
        is_block_at(r@[8], FRAC as int, -(FRAC as int), -(FRAC as int), '-'),
        is_block_at(r@[9], FRAC as int, 0, -2 * FRAC as int, '-'),
        is_block_at(r@[10], FRAC as int, 0, FRAC as int, '-'),
        is_block_at(r@[11], FRAC as int, FRAC as int, -2 * FRAC as int, '-'),
        is_block_at(r@[12], FRAC as int, FRAC as int, FRAC as int, '-'),
        is_block_at(r@[13], FRAC as int, 2 * FRAC as int, -2 * FRAC as int, '-'),
        is_block_at(r@[14], FRAC as int, 2 * FRAC as int, FRAC as int, '-'),
        is_portal_pane_at(r@[15], 98304, 163840, -32768),
        is_portal_pane_at(r@[16], 98304, 98304, -32768),
        is_portal_pane_at(r@[17], 98304, 32768, -32768),
        is_portal_pane_at(r@[18], 98304, 163840, 32768),
        is_portal_pane_at(r@[19], 98304, 98304, 32768),
        is_portal_pane_at(r@[20], 98304, 32768, 32768),
        is_block_at(r@[21], FRAC as int, 3 * FRAC as int, 0, '-'),
        is_block_at(r@[22], FRAC as int, 3 * FRAC as int, -(FRAC as int), '-'),
{
    let mesh = Mesh::from_obj(ship, Material::default(), Vec3::new(0, 0, -5 * FRAC), FRAC);
    let mut r: Vec<Object> = Vec::new();
    r.push(Object::Mesh(mesh));
    r.push(Object::Cube(Cube::new(-3 * FRAC, FRAC, 0, 'l')));
    r.push(Object::Cube(Cube::new(6 * FRAC, FRAC, -FRAC, 'l')));
    r.push(Object::Cube(Cube::grass_block(0, -FRAC, 0)));
    r.push(Object::Cube(Cube::new(0, 0, 0, 't')));
    r.push(Object::Cube(Cube::new(0, -2 * FRAC, 0, '+')));
    r.push(Object::Cube(Cube::new(0, -2 * FRAC, -FRAC, '+')));
    r.push(Object::Cube(Cube::new(FRAC, -FRAC, 0, '-')));
    r.push(Object::Cube(Cube::new(FRAC, -FRAC, -FRAC, '-')));
    r.push(Object::Cube(Cube::new(FRAC, 0, -2 * FRAC, '-')));
    r.push(Object::Cube(Cube::new(FRAC, 0, FRAC, '-')));
    r.push(Object::Cube(Cube::new(FRAC, FRAC, -2 * FRAC, '-')));
    r.push(Object::Cube(Cube::new(FRAC, FRAC, FRAC, '-')));
    r.push(Object::Cube(Cube::new(FRAC, 2 * FRAC, -2 * FRAC, '-')));
    r.push(Object::Cube(Cube::new(FRAC, 2 * FRAC, FRAC, '-')));
    r.push(Object::AnimatedQuad(AnimatedQuad::new(
        Vec3::new(98304, 163840, -32768), Vec3::new(FRAC, 0, 0), Vec3::new(0, FRAC, 0),
        FRAC, FRAC, portal())));
    r.push(Object::AnimatedQuad(AnimatedQuad::new(
        Vec3::new(98304, 98304, -32768), Vec3::new(FRAC, 0, 0), Vec3::new(0, FRAC, 0),
        FRAC, FRAC, portal())));
    r.push(Object::AnimatedQuad(AnimatedQuad::new(
        Vec3::new(98304, 32768, -32768), Vec3::new(FRAC, 0, 0), Vec3::new(0, FRAC, 0),
        FRAC, FRAC, portal())));
    r.push(Object::AnimatedQuad(AnimatedQuad::new(
        Vec3::new(98304, 163840, 32768), Vec3::new(FRAC, 0, 0), Vec3::new(0, FRAC, 0),
        FRAC, FRAC, portal())));
    r.push(Object::AnimatedQuad(AnimatedQuad::new(
        Vec3::new(98304, 98304, 32768), Vec3::new(FRAC, 0, 0), Vec3::new(0, FRAC, 0),
        FRAC, FRAC, portal())));
    r.push(Object::AnimatedQuad(AnimatedQuad::new(
        Vec3::new(98304, 32768, 32768), Vec3::new(FRAC, 0, 0), Vec3::new(0, FRAC, 0),
        FRAC, FRAC, portal())));
    r.push(Object::Cube(Cube::new(FRAC, 3 * FRAC, 0, '-')));
    r.push(Object::Cube(Cube::new(FRAC, 3 * FRAC, -FRAC, '-')));
    r
}

} // verus!
