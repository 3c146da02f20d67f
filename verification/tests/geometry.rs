//! Intersection tests for the four primitive kinds.

use raytracer::cube::Cube;
use raytracer::fixed::{FRAC, HALF, QUARTER};
use raytracer::material::Material;
use raytracer::mesh::Mesh;
use raytracer::obj::{Obj, Triangle};
use raytracer::quad::AnimatedQuad;
use raytracer::ray_intersect::RayIntersect;
use raytracer::sphere::Sphere;
use raytracer::vec3::Vec3;

fn unit_sphere_at(z: i64) -> Sphere {
    Sphere {
        center: Vec3::new(0, 0, z),
        radius: FRAC,
        material: Material::default(),
    }
}

#[test]
fn sphere_hit_is_self_consistent() {
    // a ray straight at the sphere: exact distance, point on the surface,
    // outward unit normal equal to (point - center) / radius
    let s = unit_sphere_at(-5 * FRAC);
    let h = s.ray_intersect(&Vec3::zero(), &Vec3::new(0, 0, -FRAC), 7);
    assert!(h.is_intersecting);
    assert_eq!(h.distance, 4 * FRAC);
    assert_eq!((h.point.x, h.point.y, h.point.z), (0, 0, -4 * FRAC));
    assert_eq!((h.normal.x, h.normal.y, h.normal.z), (0, 0, FRAC));
    assert_eq!(h.point.sub(s.center).length(), FRAC);
    assert_eq!(h.obj_id, 7);

    // an oblique ray: the hit point still sits on the surface within a few
    // quanta, and the normal matches the normalized offset exactly
    let rd = Vec3::new(QUARTER / 2, QUARTER / 2, -FRAC).normalized();
    let h2 = s.ray_intersect(&Vec3::zero(), &rd, 0);
    assert!(h2.is_intersecting);
    let radial = h2.point.sub(s.center).length() - FRAC;
    assert!(radial.abs() <= 64, "radial error {radial}");
    let n = h2.point.sub(s.center).normalized();
    assert_eq!((h2.normal.x, h2.normal.y, h2.normal.z), (n.x, n.y, n.z));
}

#[test]
fn sphere_from_inside_uses_the_far_root() {
    let s = unit_sphere_at(-5 * FRAC);
    let h = s.ray_intersect(&s.center, &Vec3::new(0, 0, -FRAC), 0);
    assert!(h.is_intersecting);
    assert_eq!(h.distance, FRAC);
}

#[test]
fn sphere_misses_when_pointed_away() {
    let s = unit_sphere_at(-5 * FRAC);
    let h = s.ray_intersect(&Vec3::zero(), &Vec3::new(0, 0, FRAC), 0);
    assert!(!h.is_intersecting);
    assert_eq!(h.distance, i64::MAX);
}

#[test]
fn cube_reports_every_entered_face() {
    let c = Cube::new(0, 0, 0, '#');
    let mid = HALF;
    let cases: [(Vec3, Vec3, (i64, i64, i64)); 6] = [
        (Vec3::new(mid, mid, 3 * FRAC), Vec3::new(0, 0, -FRAC), (0, 0, FRAC)),
        (Vec3::new(mid, mid, -2 * FRAC), Vec3::new(0, 0, FRAC), (0, 0, -FRAC)),
        (Vec3::new(3 * FRAC, mid, mid), Vec3::new(-FRAC, 0, 0), (FRAC, 0, 0)),
        (Vec3::new(-2 * FRAC, mid, mid), Vec3::new(FRAC, 0, 0), (-FRAC, 0, 0)),
        (Vec3::new(mid, 3 * FRAC, mid), Vec3::new(0, -FRAC, 0), (0, FRAC, 0)),
        (Vec3::new(mid, -2 * FRAC, mid), Vec3::new(0, FRAC, 0), (0, -FRAC, 0)),
    ];
    for (ro, rd, n) in cases {
        let h = c.ray_intersect(&ro, &rd, 0);
        assert!(h.is_intersecting, "ray {:?} missed", rd);
        assert_eq!((h.normal.x, h.normal.y, h.normal.z), n, "ray {:?}", rd);
    }
}

#[test]
fn cube_hit_from_inside_flips_the_exit_normal() {
    let c = Cube::new(0, 0, 0, '#');
    let ro = Vec3::new(HALF, HALF, HALF);
    let rd = Vec3::new(0, 0, -FRAC);
    let h = c.ray_intersect(&ro, &rd, 0);
    assert!(h.is_intersecting);
    // exit through the near face, normal still opposing the ray
    assert_eq!(h.point.z, 0);
    assert!(h.normal.dot(rd) <= 0);
    assert_eq!((h.normal.x, h.normal.y, h.normal.z), (0, 0, FRAC));
}

#[test]
fn cube_rejects_hits_within_the_acne_epsilon() {
    // an origin three quanta above the bottom face, aimed out through it:
    // the exit sits below the 1e-4 threshold (7 quanta) and is dropped
    let c = Cube::new(0, 0, 0, '#');
    let h = c.ray_intersect(&Vec3::new(HALF, HALF, 3), &Vec3::new(0, 0, -FRAC), 0);
    assert!(!h.is_intersecting);
    // one quantum past the threshold, the exit is reported
    let h2 = c.ray_intersect(&Vec3::new(HALF, HALF, 8), &Vec3::new(0, 0, -FRAC), 0);
    assert!(h2.is_intersecting);
    assert_eq!(h2.distance, 8);
}

#[test]
fn cube_face_textures_follow_the_face_table() {
    let g = Cube::grass_block(0, 0, 0);
    let top = g.ray_intersect(&Vec3::new(HALF, 3 * FRAC, HALF), &Vec3::new(0, -FRAC, 0), 0);
    assert_eq!(top.tex_id, Some('g'));
    let bottom = g.ray_intersect(&Vec3::new(HALF, -2 * FRAC, HALF), &Vec3::new(0, FRAC, 0), 0);
    assert_eq!(bottom.tex_id, Some('#'));
    let side = g.ray_intersect(&Vec3::new(3 * FRAC, HALF, HALF), &Vec3::new(-FRAC, 0, 0), 0);
    assert_eq!(side.tex_id, Some('|'));
    assert_eq!(g.tex_for_face(2), Some('g'));
    assert_eq!(g.tex_for_face(-2), Some('#'));
    assert_eq!(g.tex_for_face(0), None);
}

#[test]
fn biased_shadow_ray_clears_its_own_surface() {
    // the documented shadow bias: the ray restarts SHADOW_BIAS along the
    // normal (more when grazing) and must not strike the surface it left
    let c = Cube::new(0, 0, 0, '#');
    let top = c.ray_intersect(&Vec3::new(HALF, 3 * FRAC, HALF), &Vec3::new(0, -FRAC, 0), 0);
    assert!(top.is_intersecting);
    // light straight above: minimal bias
    let so = top.point.add(top.normal.scale(328));
    let again = c.ray_intersect(&so, &Vec3::new(0, FRAC, 0), 0);
    assert!(!again.is_intersecting);
    // light to the side: grazing incidence doubles the bias
    let so2 = top.point.add(top.normal.scale(656));
    let again2 = c.ray_intersect(&so2, &Vec3::new(FRAC, 0, 0), 0);
    assert!(!again2.is_intersecting);
}

#[test]
fn quad_maps_its_center_to_the_middle_of_the_texture() {
    let q = AnimatedQuad::new(
        Vec3::new(0, 0, -2 * FRAC),
        Vec3::new(0, 0, FRAC),
        Vec3::new(0, FRAC, 0),
        2 * FRAC,
        2 * FRAC,
        Material::default(),
    );
    let h = q.ray_intersect(&Vec3::zero(), &Vec3::new(0, 0, -FRAC), 3);
    assert!(h.is_intersecting);
    assert_eq!(h.distance, 2 * FRAC);
    assert_eq!((h.uv.x, h.uv.y), (HALF, HALF));
    assert_eq!((h.normal.x, h.normal.y, h.normal.z), (0, 0, FRAC));
    assert_eq!(h.obj_id, 3);
}

#[test]
fn quad_is_double_sided() {
    let q = AnimatedQuad::new(
        Vec3::new(0, 0, -2 * FRAC),
        Vec3::new(0, 0, FRAC),
        Vec3::new(0, FRAC, 0),
        2 * FRAC,
        2 * FRAC,
        Material::default(),
    );
    let h = q.ray_intersect(&Vec3::new(0, 0, -4 * FRAC), &Vec3::new(0, 0, FRAC), 0);
    assert!(h.is_intersecting);
    assert_eq!((h.normal.x, h.normal.y, h.normal.z), (0, 0, -FRAC));
}

#[test]
fn quad_rejects_rays_outside_its_extent_or_parallel() {
    let q = AnimatedQuad::new(
        Vec3::new(0, 0, -2 * FRAC),
        Vec3::new(0, 0, FRAC),
        Vec3::new(0, FRAC, 0),
        2 * FRAC,
        2 * FRAC,
        Material::default(),
    );
    let off = q.ray_intersect(&Vec3::new(3 * FRAC, 0, 0), &Vec3::new(0, 0, -FRAC), 0);
    assert!(!off.is_intersecting);
    let par = q.ray_intersect(&Vec3::zero(), &Vec3::new(FRAC, 0, 0), 0);
    assert!(!par.is_intersecting);
}

#[test]
fn mesh_finds_the_triangle_with_exact_barycentrics() {
    let m = Mesh {
        triangles: vec![Triangle {
            v0: Vec3::new(-FRAC, -FRAC, -2 * FRAC),
            v1: Vec3::new(FRAC, -FRAC, -2 * FRAC),
            v2: Vec3::new(0, FRAC, -2 * FRAC),
        }],
        material: Material::default(),
    };
    let h = m.ray_intersect(&Vec3::zero(), &Vec3::new(0, 0, -FRAC), 0);
    assert!(h.is_intersecting);
    assert_eq!(h.distance, 2 * FRAC);
    assert_eq!((h.uv.x, h.uv.y), (QUARTER, HALF));
    assert_eq!((h.normal.x, h.normal.y, h.normal.z), (0, 0, FRAC));
    let miss = m.ray_intersect(&Vec3::zero(), &Vec3::new(0, 0, FRAC), 0);
    assert!(!miss.is_intersecting);
}

#[test]
fn mesh_keeps_the_closest_of_its_triangles() {
    let near = Triangle {
        v0: Vec3::new(-FRAC, -FRAC, -2 * FRAC),
        v1: Vec3::new(FRAC, -FRAC, -2 * FRAC),
        v2: Vec3::new(0, FRAC, -2 * FRAC),
    };
    let far = Triangle {
        v0: Vec3::new(-FRAC, -FRAC, -5 * FRAC),
        v1: Vec3::new(FRAC, -FRAC, -5 * FRAC),
        v2: Vec3::new(0, FRAC, -5 * FRAC),
    };
    let m = Mesh { triangles: vec![far, near], material: Material::default() };
    let h = m.ray_intersect(&Vec3::zero(), &Vec3::new(0, 0, -FRAC), 0);
    assert_eq!(h.distance, 2 * FRAC);
}

#[test]
fn obj_assembles_triangles_and_skips_bad_indices() {
    let o = Obj::new(
        vec![Vec3::new(0, 0, 0), Vec3::new(FRAC, 0, 0), Vec3::new(0, FRAC, 0)],
        vec![0, 1, 2, 0, 1, 9, 2, 1],
    );
    let tris = o.get_triangles();
    assert_eq!(tris.len(), 1);
    assert_eq!(tris[0].v1.x, FRAC);

    let arr = Obj::new(
        vec![Vec3::new(0, 0, 0), Vec3::new(FRAC, 0, 0), Vec3::new(0, FRAC, 0)],
        vec![2, 0],
    )
    .get_vertex_array();
    assert_eq!(arr.len(), 2);
    assert_eq!(arr[0].y, FRAC);
    assert_eq!(arr[1].x, 0);
}

#[test]
fn mesh_from_obj_scales_then_offsets() {
    let o = Obj::new(
        vec![Vec3::new(FRAC, 0, 0), Vec3::new(0, FRAC, 0), Vec3::new(0, 0, FRAC)],
        vec![0, 1, 2],
    );
    let m = Mesh::from_obj(&o, Material::default(), Vec3::new(0, 0, -5 * FRAC), 2 * FRAC);
    assert_eq!(m.triangles.len(), 1);
    let t = &m.triangles[0];
    assert_eq!((t.v0.x, t.v0.y, t.v0.z), (2 * FRAC, 0, -5 * FRAC));
    assert_eq!((t.v2.x, t.v2.y, t.v2.z), (0, 0, -3 * FRAC));
}
