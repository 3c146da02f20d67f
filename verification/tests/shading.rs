//! The sky simulation, lights, textures, and end-to-end traced scenes.

use raytracer::color::Rgba;
use raytracer::fixed::{FRAC, HALF, QUARTER};
use raytracer::light::{build_lights_from_objects, PointLight};
use raytracer::material::Material;
use raytracer::object::{sample_objects, Object};
use raytracer::obj::Obj;
use raytracer::render::{render, render_pixel, Camera};
use raytracer::sky::Sky;
use raytracer::sphere::Sphere;
use raytracer::textures::{Texture, TextureManager};
use raytracer::trace::{cast_ray, MAX_DEPTH};
use raytracer::vec3::Vec3;

fn brightness(c: Rgba) -> i64 {
    c.r as i64 + c.g as i64 + c.b as i64
}

fn white_sphere(center: Vec3, radius: i64) -> Object {
    Object::Sphere(Sphere { center, radius, material: Material::default() })
}

/// An already-advanced sky with a small ambient floor, held at midnight so
/// its own sun and moon stay dark.
fn dim_sky() -> Sky {
    let mut sky = Sky::new();
    sky.ambient = 1311;
    sky
}

#[test]
fn sky_update_advances_phase_and_lights() {
    let mut sky = Sky::new();
    assert_eq!(sky.day_length, 20 * FRAC);
    // five of twenty seconds: a quarter turn, the sun at its zenith
    sky.update_sky(5 * FRAC);
    assert_eq!(sky.time, QUARTER);
    assert_eq!(sky.elapsed, 5 * FRAC);
    assert_eq!(sky.sun.intensity, 3 * FRAC);
    assert_eq!(sky.moon.intensity, 0);
    assert_eq!(sky.ambient, 1311 + 16384);
    // the sun orbits at its starting radius, straight overhead
    assert_eq!((sky.sun.position.x, sky.sun.position.y), (0, 65536000));
    // noon sun color is the near-white end of the blend
    assert_eq!((sky.sun.color.r, sky.sun.color.g, sky.sun.color.b), (255, 255, 240));

    // another half day: midnight, the moon up instead
    sky.update_sky(10 * FRAC);
    assert_eq!(sky.time, QUARTER + HALF);
    assert_eq!(sky.sun.intensity, 0);
    assert_eq!((sky.sun.color.r, sky.sun.color.g, sky.sun.color.b), (0, 0, 0));
    assert_eq!(sky.moon.intensity, 26214);
    assert_eq!(sky.ambient, 1311 + 3277);
}

#[test]
fn noon_sun_disc_saturates_to_white() {
    let mut sky = Sky::new();
    sky.update_sky(5 * FRAC);
    let c = sky.procedural_sky(Vec3::new(0, FRAC, 0));
    assert_eq!((c.x, c.y, c.z), (FRAC, FRAC, FRAC));
}

#[test]
fn night_sky_is_dark_away_from_the_moon() {
    let sky = Sky::new();
    // time zero: the sun sits on the horizon at +x, the moon at -x; look
    // straight up, away from both discs
    let c = sky.procedural_sky(Vec3::new(0, FRAC, 0));
    assert!(c.x <= 2000 && c.y <= 2000 && c.z <= 6000, "{:?}", (c.x, c.y, c.z));
}

#[test]
fn emissive_objects_become_lights() {
    let objects = vec![
        Object::Cube(raytracer::cube::Cube::new(0, 0, 0, 'l')),
        white_sphere(Vec3::new(0, 0, -5 * FRAC), FRAC),
    ];
    let lights = build_lights_from_objects(&objects);
    assert_eq!(lights.len(), 1);
    let l = &lights[0];
    assert_eq!((l.position.x, l.position.y, l.position.z), (HALF, HALF, HALF));
    assert_eq!(l.intensity, 3 * FRAC);
    assert_eq!((l.color.r, l.color.g, l.color.b), (255, 255, 255));
    assert_eq!(l.emitter_index, Some(0));
}

#[test]
fn light_rotate_keeps_radius_and_payload() {
    let mut l = PointLight::new(Vec3::new(-1000 * FRAC, 0, 0), 7, Rgba::white(), Some(3));
    l.rotate(QUARTER);
    assert_eq!((l.position.x, l.position.y, l.position.z), (0, 1000 * FRAC, 0));
    assert_eq!(l.intensity, 7);
    assert_eq!(l.emitter_index, Some(3));
}

#[test]
fn texture_store_resolves_first_binding_and_falls_back_to_white() {
    let mut store = TextureManager::new();
    assert!(store.get_texture('x').is_none());
    assert_eq!(store.sample_uv('x', 0, 0).r, 255);

    let t1 = Texture {
        width: 2,
        height: 2,
        pixels: vec![
            Rgba::new(0, 0, 0, 255),
            Rgba::new(100, 0, 0, 255),
            Rgba::new(0, 100, 0, 255),
            Rgba::new(100, 100, 0, 255),
        ],
    };
    let t2 = Texture { width: 1, height: 1, pixels: vec![Rgba::new(9, 9, 9, 255)] };
    store.add('a', t1);
    store.add('a', t2);
    let found = store.get_texture('a').expect("bound id");
    assert_eq!(found.width, 2);

    // v = 0 samples the bottom row; the middle blends all four corners
    let bottom_left = store.sample_uv('a', 0, 0);
    assert_eq!((bottom_left.r, bottom_left.g), (0, 100));
    let mid = store.sample_uv_bilinear('a', HALF, HALF);
    assert_eq!((mid.r, mid.g, mid.b), (50, 50, 0));
    let px = store.get_pixel_color('a', 1, 0);
    assert_eq!((px.r, px.g), (100, 0));
}

#[test]
fn recursion_bound_returns_the_background_untouched() {
    let sky = dim_sky();
    let store = TextureManager::new();
    let lights: Vec<PointLight> = Vec::new();
    let blocking = vec![white_sphere(Vec3::new(0, 0, -2 * FRAC), FRAC)];
    let empty: Vec<Object> = Vec::new();
    let rd = Vec3::new(0, 0, -FRAC);
    let ro = Vec3::zero();
    let with_geometry = cast_ray(&ro, &rd, &blocking, &lights, &store, &sky, MAX_DEPTH);
    let without = cast_ray(&ro, &rd, &empty, &lights, &store, &sky, MAX_DEPTH);
    assert_eq!(with_geometry, without);
    // one level below the bound, the sphere is visible
    let seen = cast_ray(&ro, &rd, &blocking, &lights, &store, &sky, MAX_DEPTH - 1);
    assert_ne!(seen, with_geometry);
}

#[test]
fn single_sphere_scene_shades_as_specified() {
    // a unit pure-diffuse white sphere five units down -z, one light
    // up and to the right, camera at the origin
    let sky = dim_sky();
    let store = TextureManager::new();
    let objects = vec![white_sphere(Vec3::new(0, 0, -5 * FRAC), FRAC)];
    let lights = vec![PointLight::new(Vec3::new(2 * FRAC, 2 * FRAC, 0), FRAC, Rgba::white(), None)];
    let ro = Vec3::zero();

    let lit = cast_ray(&ro, &Vec3::new(0, 0, -FRAC), &objects, &lights, &store, &sky, 0);
    let background = cast_ray(&ro, &Vec3::new(3 * FRAC, 0, -FRAC).normalized(),
        &objects, &lights, &store, &sky, 0);
    let dark_side = cast_ray(&ro, &Vec3::new(-7864, -7864, -65536).normalized(),
        &objects, &lights, &store, &sky, 0);

    // the lit sphere outshines the empty background
    assert!(brightness(lit) > brightness(background),
        "lit {:?} background {:?}", lit, background);
    // the side facing away from the light is darker, but the ambient
    // floor keeps it above black
    assert!(brightness(dark_side) < brightness(lit));
    assert!(brightness(dark_side) > 0, "ambient floor lost: {:?}", dark_side);
}

#[test]
fn transparent_occluder_dims_but_does_not_extinguish() {
    let sky = dim_sky();
    let store = TextureManager::new();
    let ro = Vec3::zero();
    let rd = Vec3::new(0, 0, -FRAC);
    let lights = vec![PointLight::new(Vec3::new(2 * FRAC, 2 * FRAC, 0), FRAC, Rgba::white(), None)];

    let subject = white_sphere(Vec3::new(0, 0, -5 * FRAC), FRAC);
    let mut glassy = Material::default();
    glassy.transparency = HALF;
    let occluder = |m: Material| Object::Sphere(Sphere {
        center: Vec3::new(FRAC, FRAC, -2 * FRAC),
        radius: HALF,
        material: m,
    });

    let clear = vec![subject.clone()];
    let half_blocked = vec![subject.clone(), occluder(glassy)];
    let opaque = vec![subject.clone(), occluder(Material::default())];

    let c_clear = brightness(cast_ray(&ro, &rd, &clear, &lights, &store, &sky, 0));
    let c_half = brightness(cast_ray(&ro, &rd, &half_blocked, &lights, &store, &sky, 0));
    let c_opaque = brightness(cast_ray(&ro, &rd, &opaque, &lights, &store, &sky, 0));

    assert!(c_half < c_clear, "half {c_half} clear {c_clear}");
    assert!(c_half > c_opaque, "half {c_half} opaque {c_opaque}");
}

#[test]
fn animated_material_cycles_frames_with_elapsed_time() {
    // a quad with the animated half-transparent material; its texture is a
    // one-pixel-wide atlas of 32 vertically stacked frames, each row a
    // different red level, so the sampled band betrays the frame
    let mut store = TextureManager::new();
    let mut pixels = Vec::new();
    for row in 0..32 {
        pixels.push(Rgba::new((row * 8) as u8, 0, 0, 255));
    }
    store.add('p', Texture { width: 1, height: 32, pixels });

    let quad = Object::AnimatedQuad(raytracer::quad::AnimatedQuad::new(
        Vec3::new(0, 0, -2 * FRAC),
        Vec3::new(0, 0, FRAC),
        Vec3::new(0, FRAC, 0),
        2 * FRAC,
        2 * FRAC,
        raytracer::material::portal(),
    ));
    let objects = vec![quad];
    let lights: Vec<PointLight> = Vec::new();
    let ro = Vec3::zero();
    let rd = Vec3::new(0, 0, -FRAC);

    let mut sky_start = dim_sky();
    sky_start.ambient = HALF;
    sky_start.elapsed = 0;
    let mut sky_later = dim_sky();
    sky_later.ambient = HALF;
    // two thirds of a second at 24 frames per second: frame 16 of 32
    sky_later.elapsed = 43691;

    let first = cast_ray(&ro, &rd, &objects, &lights, &store, &sky_start, 0);
    let later = cast_ray(&ro, &rd, &objects, &lights, &store, &sky_later, 0);
    assert_ne!(first, later, "frame band did not move");
}

#[test]
fn sample_scene_has_the_documented_shape() {
    let ship = Obj::new(Vec::new(), Vec::new());
    let objects = sample_objects(&ship);
    assert_eq!(objects.len(), 23);
    assert!(matches!(objects[0], Object::Mesh(_)));
    assert!(matches!(objects[1], Object::Cube(_)));
    assert!(matches!(objects[15], Object::AnimatedQuad(_)));
    assert!(matches!(objects[22], Object::Cube(_)));
    // the two lamp blocks feed the light pre-pass
    let lights = build_lights_from_objects(&objects);
    assert_eq!(lights.len(), 2);
    assert_eq!(lights[0].emitter_index, Some(1));
    assert_eq!(lights[1].emitter_index, Some(2));
}

#[test]
fn render_fills_the_grid_row_major() {
    let sky = dim_sky();
    let store = TextureManager::new();
    let objects = vec![white_sphere(Vec3::new(0, 0, -5 * FRAC), FRAC)];
    let lights = vec![PointLight::new(Vec3::new(2 * FRAC, 2 * FRAC, 0), FRAC, Rgba::white(), None)];
    let cam = Camera::new(Vec3::zero(), Vec3::new(0, 0, -FRAC), Vec3::new(0, FRAC, 0));
    let pixels = render(&objects, &lights, &store, &sky, &cam, 4, 2);
    assert_eq!(pixels.len(), 8);
    for y in 0..2u32 {
        for x in 0..4u32 {
            let one = render_pixel(&objects, &lights, &store, &sky, &cam, x, y, 4, 2);
            assert_eq!(pixels[(y * 4 + x) as usize], one);
        }
    }
}
