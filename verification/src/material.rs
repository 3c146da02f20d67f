//! Surface materials.
//!
//! A material couples an encoded diffuse color with the coefficients that
//! drive shading: albedo, Phong specular strength and exponent, reflectivity
//! (used as the Fresnel base reflectance), transparency, index of
//! refraction, an emission color with strength, and optional texture and
//! animation parameters.  All real-valued coefficients are fixed-point
//! scalars (see [`crate::fixed`]); the Phong exponent is a whole number.

use vstd::prelude::*;
use crate::fixed::FRAC;
use crate::color::{Rgba, RgbaV, rgba};

verus! {

/// Shading coefficients of a surface.
#[derive(Clone, Copy, Debug, PartialEq, Eq, Structural)]
pub struct Material {
    pub diffuse: Rgba,
    pub albedo: i64,
    pub specular_strength: i64,
    pub shininess: u32,
    pub reflectivity: i64,
    pub transparency: i64,
    pub ior: i64,
    pub emission: Rgba,
    pub emission_strength: i64,
    pub texture: Option<char>,
    pub anim_frames: u32,
    pub anim_fps: i64,
}

/// Ghost model of [`Material`].
pub ghost struct MaterialV {
    pub diffuse: RgbaV,
    pub albedo: int,
    pub specular_strength: int,
    pub shininess: int,
    pub reflectivity: int,
    pub transparency: int,
    pub ior: int,
    pub emission: RgbaV,
    pub emission_strength: int,
    pub texture: Option<char>,
    pub anim_frames: int,
    pub anim_fps: int,
}

impl View for Material {
    type V = MaterialV;

    open spec fn view(&self) -> MaterialV {
        MaterialV {
            diffuse: self.diffuse@,
            albedo: self.albedo as int,
            specular_strength: self.specular_strength as int,
            shininess: self.shininess as int,
            reflectivity: self.reflectivity as int,
            transparency: self.transparency as int,
            ior: self.ior as int,
            emission: self.emission@,
            emission_strength: self.emission_strength as int,
            texture: self.texture,
            anim_frames: self.anim_frames as int,
            anim_fps: self.anim_fps as int,
        }
    }
}

/// Well-formedness: coefficients sit in `[0, 1]`, the Phong exponent is
/// positive, the refractive index is at least 1, and animation parameters
/// are sane.  Reflectivity and transparency may sum past 1; the integrator
/// clamps the leftover diffuse weight at zero.
pub open spec fn material_wf(m: MaterialV) -> bool {
    &&& 0 <= m.albedo <= FRAC as int
    &&& 0 <= m.specular_strength <= FRAC as int
    &&& m.shininess >= 1
    &&& 0 <= m.reflectivity <= FRAC as int
    &&& 0 <= m.transparency <= FRAC as int
    &&& m.ior >= FRAC as int
    &&& 0 <= m.emission_strength
    &&& m.anim_frames >= 1
    &&& 0 <= m.anim_fps
}

/// The neutral material: flat white, full albedo, no specular highlight,
/// no reflection, no transparency, no emission, no texture.
pub open spec fn default_material_spec() -> MaterialV {
    MaterialV {
        diffuse: rgba(255, 255, 255, 255),
        albedo: FRAC as int,
        specular_strength: 0,
        shininess: 32,
        reflectivity: 0,
        transparency: 0,
        ior: FRAC as int,
        emission: rgba(0, 0, 0, 255),
        emission_strength: 0,
        texture: None,
        anim_frames: 1,
        anim_fps: 0,
    }
}

impl Default for Material {
    /// The neutral material.
    fn default() -> (r: Material)
        ensures
            r@ == default_material_spec(),
            material_wf(r@),
    {
        Material {
            diffuse: Rgba::white(),
            albedo: FRAC,
            specular_strength: 0,
            shininess: 32,
            reflectivity: 0,
            transparency: 0,
            ior: FRAC,
            emission: Rgba::black(),
            emission_strength: 0,
            texture: None,
            anim_frames: 1,
            anim_fps: 0,
        }
    }
}


/// Matte soil.
pub open spec fn dirt_spec() -> MaterialV {
    MaterialV { albedo: 32768, texture: Some('#'), ..default_material_spec() }
}

/// Turf.
pub open spec fn grass_spec() -> MaterialV {
    MaterialV { albedo: 32768, texture: Some('#'), ..default_material_spec() }
}

/// Rock.
pub open spec fn stone_spec() -> MaterialV {
    MaterialV { albedo: 32768, texture: Some('+'), ..default_material_spec() }
}

/// Glossy dark rock.
pub open spec fn obsidian_spec() -> MaterialV {
    MaterialV {
        albedo: 32768,
        specular_strength: 39322,
        texture: Some('-'),
        ..default_material_spec()
    }
}

/// Glass.
pub open spec fn glass_spec() -> MaterialV {
    MaterialV {
        reflectivity: 19661,
        transparency: 42598,
        ior: 91750,
        texture: Some('-'),
        ..default_material_spec()
    }
}

/// A glowing block.
pub open spec fn lamp_spec() -> MaterialV {
    MaterialV {
        shininess: 16,
        emission: rgba(255, 255, 255, 255),
        emission_strength: 196608,
        texture: Some('l'),
        ..default_material_spec()
    }
}

/// A half-transparent animated glowing surface.
pub open spec fn portal_spec() -> MaterialV {
    MaterialV {
        shininess: 16,
        transparency: 32768,
        emission: rgba(255, 0, 255, 255),
        emission_strength: 32768,
        texture: Some('p'),
        anim_frames: 32,
        anim_fps: 1572864,
        ..default_material_spec()
    }
}

/// Matte soil: half albedo, no specular, textured.
pub fn dirt() -> (r: Material)
    ensures
        r@ == dirt_spec(),
        material_wf(r@),
{
    Material {
        diffuse: Rgba::white(),
        albedo: 32768,
        specular_strength: 0,
        shininess: 32,
        reflectivity: 0,
        transparency: 0,
        ior: FRAC,
        emission: Rgba::black(),
        emission_strength: 0,
        texture: Some('#'),
        anim_frames: 1,
        anim_fps: 0,
    }
}

/// Turf: like soil, the block's face table picks the side textures.
pub fn grass() -> (r: Material)
    ensures
        r@ == grass_spec(),
        material_wf(r@),
{
    Material {
        diffuse: Rgba::white(),
        albedo: 32768,
        specular_strength: 0,
        shininess: 32,
        reflectivity: 0,
        transparency: 0,
        ior: FRAC,
        emission: Rgba::black(),
        emission_strength: 0,
        texture: Some('#'),
        anim_frames: 1,
        anim_fps: 0,
    }
}

/// Rock: half albedo, no specular, textured.
pub fn stone() -> (r: Material)
    ensures
        r@ == stone_spec(),
        material_wf(r@),
{
    Material {
        diffuse: Rgba::white(),
        albedo: 32768,
        specular_strength: 0,
        shininess: 32,
        reflectivity: 0,
        transparency: 0,
        ior: FRAC,
        emission: Rgba::black(),
        emission_strength: 0,
        texture: Some('+'),
        anim_frames: 1,
        anim_fps: 0,
    }
}

/// Glossy dark rock: strong specular highlight.
pub fn obsidian() -> (r: Material)
    ensures
        r@ == obsidian_spec(),
        material_wf(r@),
{
    Material {
        diffuse: Rgba::white(),
        albedo: 32768,
        specular_strength: 39322,
        shininess: 32,
        reflectivity: 0,
        transparency: 0,
        ior: FRAC,
        emission: Rgba::black(),
        emission_strength: 0,
        texture: Some('-'),
        anim_frames: 1,
        anim_fps: 0,
    }
}

/// Glass: reflective and mostly transparent, refractive index 1.4.
pub fn glass() -> (r: Material)
    ensures
        r@ == glass_spec(),
        material_wf(r@),
{
    Material {
        diffuse: Rgba::white(),
        albedo: FRAC,
        specular_strength: 0,
        shininess: 32,
        reflectivity: 19661,
        transparency: 42598,
        ior: 91750,
        emission: Rgba::black(),
        emission_strength: 0,
        texture: Some('-'),
        anim_frames: 1,
        anim_fps: 0,
    }
}

/// A glowing block: white emission at three times unit strength.
pub fn lamp() -> (r: Material)
    ensures
        r@ == lamp_spec(),
        material_wf(r@),
{
    Material {
        diffuse: Rgba::white(),
        albedo: FRAC,
        specular_strength: 0,
        shininess: 16,
        reflectivity: 0,
        transparency: 0,
        ior: FRAC,
        emission: Rgba::white(),
        emission_strength: 196608,
        texture: Some('l'),
        anim_frames: 1,
        anim_fps: 0,
    }
}

/// A half-transparent animated surface with a soft magenta glow: 32 frames
/// stacked vertically, cycled at 24 frames per second.
pub fn portal() -> (r: Material)
    ensures
        r@ == portal_spec(),
        material_wf(r@),
{
    Material {
        diffuse: Rgba::white(),
        albedo: FRAC,
        specular_strength: 0,
        shininess: 16,
        reflectivity: 0,
        transparency: 32768,
        ior: FRAC,
        emission: Rgba::new(255, 0, 255, 255),
        emission_strength: 32768,
        texture: Some('p'),
        anim_frames: 32,
        anim_fps: 1572864,
    }
}

} // verus!
