//! The recursive shading integrator.
//!
//! One ray's radiance: scan every object for the nearest hit; fall back to
//! the procedural sky when nothing is struck or the recursion depth is
//! exhausted.  At a hit, decode the sampled (possibly animated) texture or
//! flat diffuse color to linear light, add an ambient term, then for each
//! light a shadow-tested Lambert term and a Phong highlight — a shadow ray
//! starts a documented bias along the normal, skips the light's own
//! emitter, and the first blocker either darkens fully or, if transparent,
//! attenuates once.  The local color is weighted by the energy left over
//! from Fresnel reflection and transmission, which are gathered by
//! recursive rays, and the sum is encoded back.

use vstd::prelude::*;
use crate::fixed::{
    fx_add, fx_sub, fx_neg, fx_mul, fx_muli, fx_max, fx_clamp, fx_abs,
    sat_i64, iabs, fx_mul_spec, fx_div_spec, clamp_spec, fx_pow_spec, fx_pow,
    FRAC,
};
use crate::vec3::{
    Vec3, Vec3V, v3, v3_sub_spec, v3_add_spec, v3_scale_spec, v3_dot_spec,
    v3_neg_spec, v3_normalize_spec, v3_length_spec,
};
use crate::color::{
    Rgba, RgbaV, srgb_to_linear, srgb_to_linear_spec, linear_to_srgb, linear_to_srgb_spec,
};
use crate::ray_intersect::{Hit, HitV, RayIntersect, no_hit_spec};
use crate::object::{Object, object_hit_spec};
use crate::light::PointLight;
use crate::sky::{Sky, SkyV, sky_wf, procedural_sky_spec};
use crate::textures::{TextureManager, store_sample_uv_bilinear_spec};
use crate::math::{reflect, reflect_spec, refract, refract_spec, fresnel_schlick,
    fresnel_schlick_spec, kd_spec};

verus! {

/// Reflection and refraction recurse this many levels at most.
pub const MAX_DEPTH: u32 = 4;

/// A reflected or refracted ray starts this far along the normal (about
/// 1e-3) so it cannot strike its own surface again.
pub const OFFSET_EPS: i64 = 66;

/// The shadow-ray bias floor (about 5e-3): the offset grows by as much
/// again as the light grazes the surface.
pub const SHADOW_BIAS: i64 = 328;

/// The nearest hit among the first `k` objects, earlier index winning ties.
pub open spec fn nearest_hit_upto_spec(objects: Seq<Object>, ro: Vec3V, rd: Vec3V, k: int) -> HitV
    decreases k,
{
    if k <= 0 {
        no_hit_spec()
    } else {
        let prev = nearest_hit_upto_spec(objects, ro, rd, k - 1);
        let h = object_hit_spec(objects[k - 1], ro, rd, k - 1);
        if h.is_intersecting && h.distance < prev.distance {
            h
        } else {
            prev
        }
    }
}

/// Scan every object and keep the nearest hit.
pub fn nearest_hit(objects: &Vec<Object>, ro: &Vec3, rd: &Vec3) -> (h: Hit)
    ensures
        h@ == nearest_hit_upto_spec(objects@, ro@, rd@, objects@.len() as int),
        !h.is_intersecting ==> h@ == no_hit_spec(),
        h.is_intersecting ==> h.distance > 0,
{
    let mut closest = Hit::no_hit();
    let n = objects.len();
    let mut i: usize = 0;
    while i < n
        invariant
            i <= n,
            n == objects@.len(),
            closest@ == nearest_hit_upto_spec(objects@, ro@, rd@, i as int),
            !closest.is_intersecting ==> closest@ == no_hit_spec(),
            closest.is_intersecting ==> closest.distance > 0,
        decreases n - i,
    {
        let h = objects[i].ray_intersect(ro, rd, i);
        if h.is_intersecting && h.distance < closest.distance {
            closest = h;
        }
        i = i + 1;
    }
    closest
}

/// How much of a light reaches a point, scanning objects from index `i`:
/// full light if nothing else blocks; the first blocker nearer than the
/// light attenuates once by its transparency, or darkens fully when
/// opaque.  The light's own emitter is skipped.
pub open spec fn shadow_vis_from_spec(
    objects: Seq<Object>, so: Vec3V, ld: Vec3V, dist: int, em: Option<usize>, i: int,
) -> int
    decreases objects.len() - i,
{
    if i < 0 || i >= objects.len() {
        FRAC as int
    } else if (match em { Some(e) => e as int == i, None => false }) {
        shadow_vis_from_spec(objects, so, ld, dist, em, i + 1)
    } else {
        let h = object_hit_spec(objects[i], so, ld, i);
        if h.is_intersecting && h.distance < dist {
            if h.material.transparency > 0 {
                clamp_spec(h.material.transparency, 0, FRAC as int)
            } else {
                0
            }
        } else {
            shadow_vis_from_spec(objects, so, ld, dist, em, i + 1)
        }
    }
}

/// Cast one shadow ray against every object but the light's own emitter.
fn shadow_visibility(
    objects: &Vec<Object>, so: &Vec3, ld: &Vec3, dist: i64, em: Option<usize>,
) -> (r: i64)
    ensures r as int == shadow_vis_from_spec(objects@, so@, ld@, dist as int, em, 0),
{
    let n = objects.len();
    let mut i: usize = 0;
    while i < n
        invariant
            i <= n,
            n == objects@.len(),
            shadow_vis_from_spec(objects@, so@, ld@, dist as int, em, 0)
                == shadow_vis_from_spec(objects@, so@, ld@, dist as int, em, i as int),
        decreases n - i,
    {
        let skip = match em {
            Some(e) => e == i,
            None => false,
        };
        if !skip {
            let h = objects[i].ray_intersect(so, ld, i);
            if h.is_intersecting && h.distance < dist {
                if h.material.transparency > 0 {
                    return fx_clamp(h.material.transparency, 0, FRAC);
                } else {
                    return 0;
                }
            }
        }
        i = i + 1;
    }
    FRAC
}

/// What one light adds to the running linear color at a hit: nothing if
/// the light sits on the point or is fully shadowed; otherwise a Lambert
/// term in the base color (an emitter lights its own surface from either
/// side), and a Phong highlight when the material is specular.
pub open spec fn light_step_spec(
    objects: Seq<Object>, light: PointLight, h: HitV, base: Vec3V, view_dir: Vec3V, acc: Vec3V,
) -> Vec3V {
    let to_light = v3_sub_spec(light@.position, h.point);
    let dist = v3_length_spec(to_light);
    if dist == 0 {
        acc
    } else {
        let l_dir = v3(
            fx_div_spec(to_light.x, dist),
            fx_div_spec(to_light.y, dist),
            fx_div_spec(to_light.z, dist),
        );
        let ndotl_raw = clamp_spec(v3_dot_spec(h.normal, l_dir), -(FRAC as int), FRAC as int);
        let bias = sat_i64(SHADOW_BIAS as int
            + fx_mul_spec(SHADOW_BIAS as int, sat_i64(FRAC as int - sat_i64(iabs(ndotl_raw)))));
        let so = v3_add_spec(h.point, v3_scale_spec(h.normal,
            if ndotl_raw >= 0 { bias } else { sat_i64(-bias) }));
        let vis = shadow_vis_from_spec(objects, so, l_dir, dist, light@.emitter_index, 0);
        if vis > 0 {
            let lcol = srgb_to_linear_spec(light@.color);
            let self_lit = match light@.emitter_index {
                Some(e) => e as int == h.obj_id,
                None => false,
            };
            let nd = if self_lit {
                sat_i64(iabs(ndotl_raw))
            } else {
                if ndotl_raw >= 0 { ndotl_raw } else { 0 }
            };
            let diff = fx_mul_spec(
                fx_mul_spec(fx_mul_spec(light@.intensity, h.material.albedo), vis), nd);
            let acc1 = v3(
                sat_i64(acc.x + fx_mul_spec(fx_mul_spec(base.x, lcol.x), diff)),
                sat_i64(acc.y + fx_mul_spec(fx_mul_spec(base.y, lcol.y), diff)),
                sat_i64(acc.z + fx_mul_spec(fx_mul_spec(base.z, lcol.z), diff)),
            );
            if h.material.specular_strength > 0 {
                let refl = v3_normalize_spec(reflect_spec(v3_neg_spec(l_dir), h.normal));
                let rv0 = v3_dot_spec(refl, view_dir);
                let rv = if rv0 >= 0 { rv0 } else { 0 };
                let sf = fx_mul_spec(fx_mul_spec(fx_mul_spec(
                    fx_pow_spec(rv, h.material.shininess as nat),
                    h.material.specular_strength), light@.intensity), vis);
                v3(
                    sat_i64(acc1.x + fx_mul_spec(lcol.x, sf)),
                    sat_i64(acc1.y + fx_mul_spec(lcol.y, sf)),
                    sat_i64(acc1.z + fx_mul_spec(lcol.z, sf)),
                )
            } else {
                acc1
            }
        } else {
            acc
        }
    }
}

/// Shade one light at a hit, adding its terms to the accumulator.
fn apply_light(
    objects: &Vec<Object>, light: &PointLight, h: &Hit, base: Vec3, view_dir: Vec3, acc: Vec3,
) -> (r: Vec3)
    ensures r@ == light_step_spec(objects@, *light, h@, base@, view_dir@, acc@),
{
    let to_light = light.position.sub(h.point);
    let dist = to_light.length();
    if dist == 0 {
        return acc;
    }
    let l_dir = to_light.div_s(dist);
    let ndotl_raw = fx_clamp(h.normal.dot(l_dir), -FRAC, FRAC);
    let bias = fx_add(SHADOW_BIAS, fx_mul(SHADOW_BIAS, fx_sub(FRAC, fx_abs(ndotl_raw))));
    let so = h.point.add(h.normal.scale(if ndotl_raw >= 0 { bias } else { fx_neg(bias) }));
    let vis = shadow_visibility(objects, &so, &l_dir, dist, light.emitter_index);
    if vis > 0 {
        let lcol = srgb_to_linear(light.color);
        let self_lit = match light.emitter_index {
            Some(e) => e == h.obj_id,
            None => false,
        };
        let nd = if self_lit { fx_abs(ndotl_raw) } else { fx_max(ndotl_raw, 0) };
        let diff = fx_mul(fx_mul(fx_mul(light.intensity, h.material.albedo), vis), nd);
        let acc1 = Vec3 {
            x: fx_add(acc.x, fx_mul(fx_mul(base.x, lcol.x), diff)),
            y: fx_add(acc.y, fx_mul(fx_mul(base.y, lcol.y), diff)),
            z: fx_add(acc.z, fx_mul(fx_mul(base.z, lcol.z), diff)),
        };
        if h.material.specular_strength > 0 {
            let refl = reflect(l_dir.neg(), h.normal).normalized();
            let rv = fx_max(refl.dot(view_dir), 0);
            let sf = fx_mul(fx_mul(fx_mul(
                fx_pow(rv, h.material.shininess),
                h.material.specular_strength), light.intensity), vis);
            Vec3 {
                x: fx_add(acc1.x, fx_mul(lcol.x, sf)),
                y: fx_add(acc1.y, fx_mul(lcol.y, sf)),
                z: fx_add(acc1.z, fx_mul(lcol.z, sf)),
            }
        } else {
            acc1
        }
    } else {
        acc
    }
}

/// The linear color after the first `k` lights have been shaded, in order,
/// starting from the ambient term.
pub open spec fn lights_acc_upto_spec(
    objects: Seq<Object>, lights: Seq<PointLight>, h: HitV, base: Vec3V, view_dir: Vec3V,
    init: Vec3V, k: int,
) -> Vec3V
    decreases k,
{
    if k <= 0 {
        init
    } else {
        light_step_spec(objects, lights[k - 1], h, base, view_dir,
            lights_acc_upto_spec(objects, lights, h, base, view_dir, init, k - 1))
    }
}

/// The texture coordinate row an animated material samples: the elapsed
/// time picks a frame of the vertically stacked atlas and the coordinate
/// is remapped into that frame's band.
pub open spec fn anim_v_spec(elapsed: int, fps: int, frames: int, v: int) -> int
    recommends frames >= 1,
{
    let ft = fx_mul_spec(elapsed, fps);
    let ftc = if ft < 0 { 0 } else { ft };
    let fi = (ftc / (FRAC as int)) % frames;
    let fh = (FRAC as int) / frames;
    let vc = clamp_spec(v, 0, FRAC as int);
    sat_i64(sat_i64(fi * fh) + fx_mul_spec(vc, fh))
}

fn anim_v(elapsed: i64, fps: i64, frames: u32, v: i64) -> (r: i64)
    requires frames >= 1,
    ensures r as int == anim_v_spec(elapsed as int, fps as int, frames as int, v as int),
{
    let ft = fx_mul(elapsed, fps);
    let ftc: i64 = if ft < 0 { 0 } else { ft };
    let fi: u64 = ((ftc as u64) / 65536) % (frames as u64);
    proof {
        let fr = frames as int;
        vstd::arithmetic::div_mod::lemma_div_pos_is_pos(ftc as int, 65536int);
        vstd::arithmetic::div_mod::lemma_mod_division_less_than_divisor(
            (ftc as int) / 65536, fr);
        vstd::arithmetic::div_mod::lemma_div_pos_is_pos(65536int, fr);
        vstd::arithmetic::div_mod::lemma_div_is_ordered_by_denominator(65536int, 1int, fr);
        vstd::arithmetic::div_mod::lemma_div_by_self(1int);
        assert(65536int / 1int == 65536) by (nonlinear_arith);
    }
    let fh: i64 = (65536u64 / (frames as u64)) as i64;
    let vc = fx_clamp(v, 0, FRAC);
    proof {
        assert(fi as i64 as int == ((ftc as int) / 65536) % (frames as int));
    }
    fx_add(fx_muli(fh, fi as i64), fx_mul(vc, fh))
}

/// The base color shading starts from: the hit's own texture id, or the
/// material's, sampled bilinearly (through the animated atlas when the
/// material animates); with no texture, the flat diffuse color.
pub open spec fn base_color_spec(store: &TextureManager, sky: SkyV, h: HitV) -> RgbaV {
    let tex_id = match h.tex_id {
        Some(ch) => Some(ch),
        None => h.material.texture,
    };
    match tex_id {
        None => h.material.diffuse,
        Some(ch) => {
            let vv = if h.material.anim_frames > 1 && h.material.anim_fps > 0 {
                anim_v_spec(sky.elapsed, h.material.anim_fps, h.material.anim_frames, h.uv.y)
            } else {
                h.uv.y
            };
            store_sample_uv_bilinear_spec(store, ch, h.uv.x, vv)
        },
    }
}

fn base_color(store: &TextureManager, sky: &Sky, h: &Hit) -> (r: Rgba)
    ensures r@ == base_color_spec(store, sky@, h@),
{
    let tex_id = match h.tex_id {
        Some(ch) => Some(ch),
        None => h.material.texture,
    };
    match tex_id {
        None => h.material.diffuse,
        Some(ch) => {
            let vv = if h.material.anim_frames > 1 && h.material.anim_fps > 0 {
                anim_v(sky.elapsed, h.material.anim_fps, h.material.anim_frames, h.uv.y)
            } else {
                h.uv.y
            };
            store.sample_uv_bilinear(ch, h.uv.x, vv)
        },
    }
}

/// The radiance of one ray, to the recursion bound: the background when
/// the depth is exhausted or nothing is struck; otherwise the ambient and
/// per-light local color, weighted by the diffuse energy the Fresnel split
/// leaves, plus the reflected and (absent total internal reflection)
/// refracted recursive radiances, encoded back to 8 bits.
pub open spec fn cast_ray_spec(
    objects: Seq<Object>, lights: Seq<PointLight>, store: &TextureManager, sky: SkyV,
    ro: Vec3V, rd: Vec3V, depth: int,
) -> RgbaV
    decreases MAX_DEPTH as int - depth,
{
    let background = linear_to_srgb_spec(procedural_sky_spec(sky, rd));
    if depth >= MAX_DEPTH as int {
        background
    } else {
        let h = nearest_hit_upto_spec(objects, ro, rd, objects.len() as int);
        if !h.is_intersecting {
            background
        } else {
            let base = srgb_to_linear_spec(base_color_spec(store, sky, h));
            let init = v3(
                fx_mul_spec(fx_mul_spec(base.x, sky.ambient), h.material.albedo),
                fx_mul_spec(fx_mul_spec(base.y, sky.ambient), h.material.albedo),
                fx_mul_spec(fx_mul_spec(base.z, sky.ambient), h.material.albedo),
            );
            let view_dir = v3_normalize_spec(v3_sub_spec(ro, h.point));
            let lit = lights_acc_upto_spec(objects, lights, h, base, view_dir, init,
                lights.len() as int);
            let cos_theta0 = sat_i64(-v3_dot_spec(rd, h.normal));
            let cos_theta = if cos_theta0 >= 0 { cos_theta0 } else { 0 };
            let f0 = clamp_spec(h.material.reflectivity, 0, FRAC as int);
            let kr = fresnel_schlick_spec(cos_theta, f0);
            let kt = clamp_spec(h.material.transparency, 0, FRAC as int);
            let kd = kd_spec(kr, kt);
            let local = v3_scale_spec(lit, kd);
            let with_refl = if kr > 0 {
                let refl_dir = v3_normalize_spec(reflect_spec(rd, h.normal));
                let refl_origin = v3_add_spec(h.point, v3_scale_spec(h.normal, OFFSET_EPS as int));
                let rc = srgb_to_linear_spec(cast_ray_spec(
                    objects, lights, store, sky, refl_origin, refl_dir, depth + 1));
                v3_add_spec(local, v3_scale_spec(rc, kr))
            } else {
                local
            };
            let with_refr = if kt > 0 {
                match refract_spec(rd, h.normal, FRAC as int, h.material.ior) {
                    None => with_refl,
                    Some(rdir) => {
                        let refr_origin = v3_sub_spec(h.point,
                            v3_scale_spec(h.normal, OFFSET_EPS as int));
                        let tc = srgb_to_linear_spec(cast_ray_spec(
                            objects, lights, store, sky, refr_origin,
                            v3_normalize_spec(rdir), depth + 1));
                        v3_add_spec(with_refl, v3_scale_spec(tc, kt))
                    },
                }
            } else {
                with_refl
            };
            linear_to_srgb_spec(with_refr)
        }
    }
}

/// At the recursion bound the integrator answers with the background color
/// alone, touching no geometry.
pub proof fn lemma_recursion_terminates(
    objects: Seq<Object>, lights: Seq<PointLight>, store: &TextureManager, sky: SkyV,
    ro: Vec3V, rd: Vec3V, depth: int,
)
    requires depth >= MAX_DEPTH as int,
    ensures cast_ray_spec(objects, lights, store, sky, ro, rd, depth)
        == linear_to_srgb_spec(procedural_sky_spec(sky, rd)),
{
}

/// Trace one ray through the scene.
pub fn cast_ray(
    ro: &Vec3, rd: &Vec3, objects: &Vec<Object>, lights: &Vec<PointLight>,
    texmgr: &TextureManager, sky: &Sky, depth: u32,
) -> (r: Rgba)
    requires sky_wf(sky@),
    ensures r@ == cast_ray_spec(objects@, lights@, texmgr, sky@, ro@, rd@, depth as int),
    decreases MAX_DEPTH - depth,
{
    let background_linear = sky.procedural_sky(*rd);
    if depth >= MAX_DEPTH {
        return linear_to_srgb(background_linear);
    }
    let h = nearest_hit(objects, ro, rd);
    if !h.is_intersecting {
        return linear_to_srgb(background_linear);
    }
    let base = srgb_to_linear(base_color(texmgr, sky, &h));
    let init = Vec3 {
        x: fx_mul(fx_mul(base.x, sky.ambient), h.material.albedo),
        y: fx_mul(fx_mul(base.y, sky.ambient), h.material.albedo),
        z: fx_mul(fx_mul(base.z, sky.ambient), h.material.albedo),
    };
    let view_dir = ro.sub(h.point).normalized();

    let mut lit = init;
    let nl = lights.len();
    let mut i: usize = 0;
    while i < nl
        invariant
            i <= nl,
            nl == lights@.len(),
            lit@ == lights_acc_upto_spec(objects@, lights@, h@, base@, view_dir@, init@, i as int),
        decreases nl - i,
    {
        lit = apply_light(objects, &lights[i], &h, base, view_dir, lit);
        i = i + 1;
    }

    let cos_theta = fx_max(fx_neg(rd.dot(h.normal)), 0);
    let f0 = fx_clamp(h.material.reflectivity, 0, FRAC);
    let kr = fresnel_schlick(cos_theta, f0);
    let kt = fx_clamp(h.material.transparency, 0, FRAC);
    let kd0 = fx_sub(fx_sub(FRAC, kr), kt);
    let kd = if kd0 < 0 { 0 } else { kd0 };
    let local = lit.scale(kd);

    let with_refl = if kr > 0 {
        let refl_dir = reflect(*rd, h.normal).normalized();
        let refl_origin = h.point.add(h.normal.scale(OFFSET_EPS));
        let rc = srgb_to_linear(cast_ray(
            &refl_origin, &refl_dir, objects, lights, texmgr, sky, depth + 1));
        local.add(rc.scale(kr))
    } else {
        local
    };

    let with_refr = if kt > 0 {
        match refract(*rd, h.normal, FRAC, h.material.ior) {
            None => with_refl,
            Some(rdir) => {
                let refr_origin = h.point.sub(h.normal.scale(OFFSET_EPS));
                let tc = srgb_to_linear(cast_ray(
                    &refr_origin, &rdir.normalized(), objects, lights, texmgr, sky, depth + 1));
                with_refl.add(tc.scale(kt))
            },
        }
    } else {
        with_refl
    };

    linear_to_srgb(with_refr)
}

} // verus!
