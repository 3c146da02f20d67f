//! The day/night environment simulation.
//!
//! One continuous driving variable — the time of day, a phase in `[0, 1)`
//! turns — advances each frame.  The sun and moon orbit the scene on a
//! circle of large radius at that phase (the moon half a turn behind);
//! their visibility is the positive part of their orbital height, which in
//! turn sets their intensity, the sun's warm-to-white color, and a coarse
//! ambient scalar.  The same state synthesizes a procedural background
//! radiance for any direction: blended day and night vertical gradients
//! plus smoothstep-shaped sun and moon discs.

use vstd::prelude::*;
use crate::fixed::{
    fx_add, fx_sub, fx_neg, fx_mul, fx_muli, fx_div, fx_max, fx_clamp, fx_sqrt, fx_wrap_unit,
    fx_sin_turns, fx_cos_turns, sat_i64, fx_mul_spec, fx_div_spec, isqrt_spec, clamp_spec,
    sin_turns_spec, cos_turns_spec, FRAC, HALF,
};
use crate::vec3::{
    Vec3, Vec3V, v3, v3_add_spec, v3_sub_spec, v3_neg_spec, v3_scale_spec, v3_length_spec,
    v3_normalize_spec,
};
use crate::color::{Rgba, RgbaV, rgba, lerp_color, lerp_color_spec};
use crate::light::{PointLight, PointLightV, orbit_position_spec};

verus! {

/// Sky state: the time of day as a phase in `[0, FRAC)` turns, wall-clock
/// time since start, seconds per full cycle, the two orbital lights, and
/// the derived ambient scalar.
pub struct Sky {
    pub time: i64,
    pub elapsed: i64,
    pub day_length: i64,
    pub sun: PointLight,
    pub moon: PointLight,
    pub ambient: i64,
}

/// Ghost model of [`Sky`].
pub ghost struct SkyV {
    pub time: int,
    pub elapsed: int,
    pub day_length: int,
    pub sun: PointLightV,
    pub moon: PointLightV,
    pub ambient: int,
}

impl View for Sky {
    type V = SkyV;

    open spec fn view(&self) -> SkyV {
        SkyV {
            time: self.time as int,
            elapsed: self.elapsed as int,
            day_length: self.day_length as int,
            sun: self.sun@,
            moon: self.moon@,
            ambient: self.ambient as int,
        }
    }
}

/// The sky's standing invariant: the phase is a wrapped turn fraction and
/// the cycle length is positive.
pub open spec fn sky_wf(s: SkyV) -> bool {
    &&& 0 <= s.time < FRAC as int
    &&& s.day_length > 0
}

/// The phase the clock advances to: `time + dt / day_length`, wrapped
/// into `[0, 1)` turns.
pub open spec fn advanced_time_spec(s: SkyV, dt: int) -> int {
    sat_i64(s.time + fx_div_spec(dt, s.day_length)) % (FRAC as int)
}

/// Positive part of the orbital height at a phase: how visible the body
/// standing at that phase is.
pub open spec fn sun_visibility_spec(time: int) -> int {
    if sin_turns_spec(time) >= 0 { sin_turns_spec(time) } else { 0 }
}

/// The moon is visible when the sun is below the horizon.
pub open spec fn moon_visibility_spec(time: int) -> int {
    if sat_i64(-sin_turns_spec(time)) >= 0 { sat_i64(-sin_turns_spec(time)) } else { 0 }
}

/// The sun's color at a given visibility: black below the horizon, else a
/// blend from a warm sunrise orange to near-white, keyed by the square
/// root of visibility.
pub open spec fn sun_color_spec(vis: int) -> RgbaV {
    if vis > 0 {
        lerp_color_spec(rgba(255, 170, 90, 255), rgba(255, 255, 240, 255),
            isqrt_spec(vis * (FRAC as int)))
    } else {
        rgba(0, 0, 0, 255)
    }
}

/// The ambient scalar a sky state derives: a small floor, a quarter of the
/// sun's visibility, and a twentieth of the moon's.
pub open spec fn ambient_spec(sun_vis: int, moon_vis: int) -> int {
    sat_i64(sat_i64(1311 + fx_mul_spec(16384, sun_vis)) + fx_mul_spec(3277, moon_vis))
}

impl Sky {
    /// Midnight at the start of a twenty-second day, with the sun parked
    /// dark on one horizon and the pale moon on the other.
    pub fn new() -> (r: Sky)
        ensures
            r@.time == 0,
            r@.elapsed == 0,
            r@.day_length == 20 * FRAC as int,
            r@.sun.position == v3(-65536000, 0, 0),
            r@.sun.intensity == 0,
            r@.sun.color == rgba(0, 0, 0, 255),
            r@.sun.emitter_index == (None::<usize>),
            r@.moon.position == v3(65536000, 0, 0),
            r@.moon.intensity == 0,
            r@.moon.color == rgba(200, 210, 255, 255),
            r@.moon.emitter_index == (None::<usize>),
            r@.ambient == 0,
            sky_wf(r@),
    {
        Sky {
            time: 0,
            elapsed: 0,
            day_length: 20 * FRAC,
            sun: PointLight::new(Vec3::new(-65536000, 0, 0), 0, Rgba::black(), None),
            moon: PointLight::new(Vec3::new(65536000, 0, 0), 0, Rgba::new(200, 210, 255, 255), None),
            ambient: 0,
        }
    }

    /// Advance the simulation by `dt` seconds: wrap the phase, move both
    /// lights along their orbits (the moon half a turn behind), and derive
    /// intensities, colors and the ambient scalar from the new heights.
    pub fn update_sky(&mut self, dt: i64)
        requires
            sky_wf(old(self)@),
            dt >= 0,
        ensures
            sky_wf(final(self)@),
            final(self)@.day_length == old(self)@.day_length,
            final(self)@.elapsed == sat_i64(old(self)@.elapsed + dt),
            final(self)@.time == advanced_time_spec(old(self)@, dt as int),
            final(self)@.sun.position == orbit_position_spec(
                old(self)@.sun.position, advanced_time_spec(old(self)@, dt as int)),
            final(self)@.moon.position == orbit_position_spec(
                old(self)@.moon.position,
                sat_i64(advanced_time_spec(old(self)@, dt as int) + HALF as int) % (FRAC as int)),
            final(self)@.sun.intensity == sat_i64(
                3 * sun_visibility_spec(advanced_time_spec(old(self)@, dt as int))),
            final(self)@.sun.color == sun_color_spec(
                sun_visibility_spec(advanced_time_spec(old(self)@, dt as int))),
            final(self)@.moon.intensity == fx_mul_spec(
                moon_visibility_spec(advanced_time_spec(old(self)@, dt as int)), 26214),
            final(self)@.moon.color == rgba(200, 210, 255, 255),
            final(self)@.sun.emitter_index == old(self)@.sun.emitter_index,
            final(self)@.moon.emitter_index == old(self)@.moon.emitter_index,
            final(self)@.ambient == ambient_spec(
                sun_visibility_spec(advanced_time_spec(old(self)@, dt as int)),
                moon_visibility_spec(advanced_time_spec(old(self)@, dt as int))),
    {
        self.elapsed = fx_add(self.elapsed, dt);
        self.time = fx_wrap_unit(fx_add(self.time, fx_div(dt, self.day_length)));
        let theta = self.time;
        self.sun.rotate(theta);
        self.moon.rotate(fx_wrap_unit(fx_add(theta, HALF)));

        let sun_height = fx_sin_turns(theta);
        let sun_visibility = fx_max(sun_height, 0);
        let sun_intensity = fx_muli(sun_visibility, 3);
        let t_sun_color = fx_sqrt(sun_visibility);
        let sun_color = if sun_visibility > 0 {
            lerp_color(Rgba::new(255, 170, 90, 255), Rgba::new(255, 255, 240, 255), t_sun_color)
        } else {
            Rgba::black()
        };

        let moon_visibility = fx_max(fx_neg(sun_height), 0);
        let moon_intensity = fx_mul(moon_visibility, 26214);
        let moon_color = Rgba::new(200, 210, 255, 255);

        self.sun.set_intensity(sun_intensity);
        self.sun.set_current_color(sun_color);
        self.moon.set_intensity(moon_intensity);
        self.moon.set_current_color(moon_color);

        self.ambient = fx_add(fx_add(1311, fx_mul(16384, sun_visibility)),
            fx_mul(3277, moon_visibility));
    }
}

/// The cubic smoothstep ramp between two edges: 0 at or below `e0`, 1 at
/// or above `e1`, `3t^2 - 2t^3` of the clamped fraction between.
pub open spec fn smoothstep_spec(e0: int, e1: int, x: int) -> int
    recommends e0 < e1,
{
    let t = clamp_spec(fx_div_spec(sat_i64(x - e0), sat_i64(e1 - e0)), 0, FRAC as int);
    fx_mul_spec(fx_mul_spec(t, t), sat_i64(3 * (FRAC as int) - sat_i64(2 * t)))
}

fn smoothstep(e0: i64, e1: i64, x: i64) -> (r: i64)
    requires e0 < e1,
    ensures r as int == smoothstep_spec(e0 as int, e1 as int, x as int),
{
    let t = fx_clamp(fx_div(fx_sub(x, e0), fx_sub(e1, e0)), 0, FRAC);
    fx_mul(fx_mul(t, t), fx_sub(3 * FRAC, fx_muli(t, 2)))
}

/// One three-stop vertical gradient: below the horizon band blend `lo` to
/// `mid`, inside it hold `mid`, above it blend `mid` to `hi`, and at the
/// top hold `hi`.  `t` is the remapped vertical coordinate in `[0, 1]`.
pub open spec fn gradient_spec(t: int, lo: Vec3V, mid: Vec3V, hi: Vec3V) -> Vec3V {
    if t < 35389 {
        let k = fx_div_spec(t, 36045);
        v3_add_spec(v3_scale_spec(lo, sat_i64(FRAC as int - k)), v3_scale_spec(mid, k))
    } else if t < 36045 {
        mid
    } else if t < 52429 {
        let k = fx_div_spec(sat_i64(t - 36045), 16384);
        v3_add_spec(v3_scale_spec(mid, sat_i64(FRAC as int - k)), v3_scale_spec(hi, k))
    } else {
        hi
    }
}

fn gradient(t: i64, lo: Vec3, mid: Vec3, hi: Vec3) -> (r: Vec3)
    ensures r@ == gradient_spec(t as int, lo@, mid@, hi@),
{
    if t < 35389 {
        let k = fx_div(t, 36045);
        lo.scale(fx_sub(FRAC, k)).add(mid.scale(k))
    } else if t < 36045 {
        mid
    } else if t < 52429 {
        let k = fx_div(fx_sub(t, 36045), 16384);
        mid.scale(fx_sub(FRAC, k)).add(hi.scale(k))
    } else {
        hi
    }
}

/// The disc brightness of a sky body: a crisp core inside `inner`, a soft
/// halo out to `outer` (`core_gain` scales the core, in fixed point), all
/// scaled by the body's visibility.
pub open spec fn disc_spec(dist: int, inner: int, outer: int, core_gain: int, vis: int) -> int {
    let core = sat_i64(FRAC as int - smoothstep_spec(0, inner, dist));
    let halo = sat_i64(FRAC as int - smoothstep_spec(inner, outer, dist));
    fx_mul_spec(sat_i64(fx_mul_spec(core, core_gain) + halo), vis)
}

fn disc(dist: i64, inner: i64, outer: i64, core_gain: i64, vis: i64) -> (r: i64)
    requires 0 < inner < outer,
    ensures r as int == disc_spec(dist as int, inner as int, outer as int, core_gain as int, vis as int),
{
    let core = fx_sub(FRAC, smoothstep(0, inner, dist));
    let halo = fx_sub(FRAC, smoothstep(inner, outer, dist));
    fx_mul(fx_add(fx_mul(core, core_gain), halo), vis)
}

/// The background radiance of a direction under a sky state: normalized
/// direction, day and night gradients blended by the sun's visibility,
/// additive sun and moon discs keyed by the direction-space distance to
/// each body, clamped to the unit color cube.
pub open spec fn procedural_sky_spec(s: SkyV, dir: Vec3V) -> Vec3V {
    let d = v3_normalize_spec(dir);
    let t = fx_mul_spec(sat_i64(d.y + FRAC as int), HALF as int);
    let day = gradient_spec(t, v3(6554, 39322, 13107), v3(FRAC as int, FRAC as int, FRAC as int),
        v3(19661, 32768, FRAC as int));
    let night = gradient_spec(t, v3(655, 1966, 3277), v3(1311, 3277, 6554), v3(0, 0, 5243));
    let sun_dir = v3(cos_turns_spec(s.time), sin_turns_spec(s.time), 0);
    let moon_dir = v3_neg_spec(sun_dir);
    let sun_vis = if sun_dir.y >= 0 { sun_dir.y } else { 0 };
    let moon_vis = if sat_i64(-sun_dir.y) >= 0 { sat_i64(-sun_dir.y) } else { 0 };
    let base = v3_add_spec(v3_scale_spec(day, sun_vis),
        v3_scale_spec(night, sat_i64(FRAC as int - sun_vis)));
    let sun_dist = v3_length_spec(v3_sub_spec(d, sun_dir));
    let sun_b = if sun_vis > 0 { disc_spec(sun_dist, 786, 7864, 131072, sun_vis) } else { 0 };
    let with_sun = if sun_b > 0 {
        v3_add_spec(base, v3_scale_spec(v3(FRAC as int, 62259, 52429), sun_b))
    } else {
        base
    };
    let moon_dist = v3_length_spec(v3_sub_spec(d, moon_dir));
    let moon_b = if moon_vis > 0 {
        fx_mul_spec(disc_spec(moon_dist, 786, 3146, 122880, moon_vis), 41943)
    } else {
        0
    };
    let with_moon = if moon_b > 0 {
        v3_add_spec(with_sun, v3_scale_spec(v3(55706, 58982, FRAC as int), moon_b))
    } else {
        with_sun
    };
    v3(
        clamp_spec(with_moon.x, 0, FRAC as int),
        clamp_spec(with_moon.y, 0, FRAC as int),
        clamp_spec(with_moon.z, 0, FRAC as int),
    )
}

impl Sky {
    /// The background radiance arriving from a direction, as a linear color.
    pub fn procedural_sky(&self, dir: Vec3) -> (r: Vec3)
        requires sky_wf(self@),
        ensures r@ == procedural_sky_spec(self@, dir@),
    {
        let d = dir.normalized();
        let t = fx_mul(fx_add(d.y, FRAC), HALF);
        let day = gradient(t, Vec3::new(6554, 39322, 13107), Vec3::new(FRAC, FRAC, FRAC),
            Vec3::new(19661, 32768, FRAC));
        let night = gradient(t, Vec3::new(655, 1966, 3277), Vec3::new(1311, 3277, 6554),
            Vec3::new(0, 0, 5243));
        let sun_dir = Vec3::new(fx_cos_turns(self.time), fx_sin_turns(self.time), 0);
        let moon_dir = sun_dir.neg();
        let sun_vis = fx_max(sun_dir.y, 0);
        let moon_vis = fx_max(fx_neg(sun_dir.y), 0);
        let base = day.scale(sun_vis).add(night.scale(fx_sub(FRAC, sun_vis)));
        let sun_dist = d.sub(sun_dir).length();
        let sun_b = if sun_vis > 0 { disc(sun_dist, 786, 7864, 131072, sun_vis) } else { 0 };
        let with_sun = if sun_b > 0 {
            base.add(Vec3::new(FRAC, 62259, 52429).scale(sun_b))
        } else {
            base
        };
        let moon_dist = d.sub(moon_dir).length();
        let moon_b = if moon_vis > 0 {
            fx_mul(disc(moon_dist, 786, 3146, 122880, moon_vis), 41943)
        } else {
            0
        };
        let with_moon = if moon_b > 0 {
            with_sun.add(Vec3::new(55706, 58982, FRAC).scale(moon_b))
        } else {
            with_sun
        };
        Vec3 {
            x: fx_clamp(with_moon.x, 0, FRAC),
            y: fx_clamp(with_moon.y, 0, FRAC),
            z: fx_clamp(with_moon.z, 0, FRAC),
        }
    }
}

} // verus!
