//! Point lights, and the pre-pass that turns emissive objects into lights.
//!
//! A light may carry the index of the object that emits it, so shading can
//! skip that object when casting the light's shadow rays and shade the
//! emitter's own surface without blacking it out.

use vstd::prelude::*;
use crate::fixed::{
    fx_mul, fx_cos_turns, fx_sin_turns, fx_mul_spec, cos_turns_spec, sin_turns_spec,
    FRAC, HALF,
};
use crate::vec3::{Vec3, Vec3V, v3, v3_add_spec, v3_scale_spec, v3_length_spec};
use crate::color::{Rgba, RgbaV};
use crate::object::Object;

verus! {

/// A point light: position, intensity, color, and the index of the object
/// that emits it, when one does.
#[derive(Clone, Copy, Debug)]
pub struct PointLight {
    pub position: Vec3,
    pub intensity: i64,
    pub color: Rgba,
    pub emitter_index: Option<usize>,
}

/// Ghost model of [`PointLight`].
pub ghost struct PointLightV {
    pub position: Vec3V,
    pub intensity: int,
    pub color: RgbaV,
    pub emitter_index: Option<usize>,
}

impl View for PointLight {
    type V = PointLightV;

    open spec fn view(&self) -> PointLightV {
        PointLightV {
            position: self.position@,
            intensity: self.intensity as int,
            color: self.color@,
            emitter_index: self.emitter_index,
        }
    }
}

/// Where a light of a given orbital radius stands at a phase angle: on the
/// circle through the scene center in the XY plane, its depth unchanged.
pub open spec fn orbit_position_spec(p: Vec3V, theta: int) -> Vec3V {
    let size = v3_length_spec(p);
    v3(fx_mul_spec(size, cos_turns_spec(theta)), fx_mul_spec(size, sin_turns_spec(theta)), p.z)
}

impl PointLight {
    /// Build a light from its parts.
    pub fn new(position: Vec3, intensity: i64, color: Rgba, emitter_index: Option<usize>)
        -> (r: PointLight)
        ensures
            r@.position == position@,
            r@.intensity == intensity as int,
            r@.color == color@,
            r@.emitter_index == emitter_index,
    {
        PointLight { position, intensity, color, emitter_index }
    }

    /// Move the light along its circular orbit to the phase angle `theta`,
    /// given in turns; intensity, color and emitter stay.
    pub fn rotate(&mut self, theta: i64)
        requires 0 <= theta < FRAC,
        ensures
            final(self)@.position == orbit_position_spec(old(self)@.position, theta as int),
            final(self)@.intensity == old(self)@.intensity,
            final(self)@.color == old(self)@.color,
            final(self)@.emitter_index == old(self)@.emitter_index,
    {
        let size = self.position.length();
        self.position = Vec3 {
            x: fx_mul(size, fx_cos_turns(theta)),
            y: fx_mul(size, fx_sin_turns(theta)),
            z: self.position.z,
        };
    }

    /// Replace the intensity.
    pub fn set_intensity(&mut self, intensity: i64)
        ensures final(self)@ == (PointLightV { intensity: intensity as int, ..old(self)@ }),
    {
        self.intensity = intensity;
    }

    /// Replace the color.
    pub fn set_current_color(&mut self, color: Rgba)
        ensures final(self)@ == (PointLightV { color: color@, ..old(self)@ }),
    {
        self.color = color;
    }
}

/// The light an emissive object at index `i` synthesizes, if any: spheres
/// emit from their center, boxes from their middle; other primitives
/// synthesize none.
pub open spec fn emissive_light_spec(o: Object, i: int) -> Option<PointLightV> {
    match o {
        Object::Sphere(s) => if s@.material.emission_strength > 0 {
            Some(PointLightV {
                position: s@.center,
                intensity: s@.material.emission_strength,
                color: s@.material.emission,
                emitter_index: Some(i as usize),
            })
        } else {
            None
        },
        Object::Cube(c) => if c@.material.emission_strength > 0 {
            Some(PointLightV {
                position: v3_scale_spec(v3_add_spec(c@.min, c@.max), HALF as int),
                intensity: c@.material.emission_strength,
                color: c@.material.emission,
                emitter_index: Some(i as usize),
            })
        } else {
            None
        },
        _ => None,
    }
}

/// The lights the first `k` objects synthesize, in scene order.
pub open spec fn lights_upto_spec(objs: Seq<Object>, k: int) -> Seq<PointLightV>
    decreases k,
{
    if k <= 0 {
        Seq::empty()
    } else {
        let prev = lights_upto_spec(objs, k - 1);
        match emissive_light_spec(objs[k - 1], k - 1) {
            None => prev,
            Some(l) => prev.push(l),
        }
    }
}

/// One pass over the scene: a light per emissive object, at its center,
/// with the material's emission strength and color, tagged with the
/// emitter's index.
pub fn build_lights_from_objects(objects: &Vec<Object>) -> (r: Vec<PointLight>)
    ensures
        r@.map_values(|l: PointLight| l@) =~= lights_upto_spec(objects@, objects@.len() as int),
{
    let mut lights: Vec<PointLight> = Vec::new();
    let n = objects.len();
    let mut i: usize = 0;
    while i < n
        invariant
            i <= n,
            n == objects@.len(),
            lights@.map_values(|l: PointLight| l@) =~= lights_upto_spec(objects@, i as int),
        decreases n - i,
    {
        match &objects[i] {
            Object::Sphere(s) => {
                if s.material.emission_strength > 0 {
                    lights.push(PointLight::new(
                        s.center,
                        s.material.emission_strength,
                        s.material.emission,
                        Some(i),
                    ));
                }
            },
            Object::Cube(c) => {
                if c.material.emission_strength > 0 {
                    let center = c.min.add(c.max).scale(HALF);
                    lights.push(PointLight::new(
                        center,
                        c.material.emission_strength,
                        c.material.emission,
                        Some(i),
                    ));
                }
            },
            _ => {},
        }
        i = i + 1;
        proof {
            assert(lights@.map_values(|l: PointLight| l@) =~= lights_upto_spec(objects@, i as int));
        }
    }
    lights
}

} // verus!
