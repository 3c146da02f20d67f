//! The camera and the per-pixel render pass.
//!
//! A camera is an eye point with an orthonormal basis; a pixel maps to a
//! camera-space direction on the image plane (a sixty-degree vertical
//! field of view), which the basis carries into the world.  The pass
//! computes one traced color per pixel, row-major; each pixel is a pure
//! function of the scene, so callers may compute rows independently and
//! concatenate.

use vstd::prelude::*;
use crate::fixed::{
    fx_add, fx_sub, fx_neg, fx_mul, fx_div, fx_muli, sat_i64, fx_mul_spec, fx_div_spec, FRAC,
};
use crate::vec3::{
    Vec3, Vec3V, v3, v3_add_spec, v3_sub_spec, v3_scale_spec, v3_cross_spec, v3_normalize_spec,
};
use crate::color::{Rgba, RgbaV};
use crate::object::Object;
use crate::light::PointLight;
use crate::sky::{Sky, SkyV, sky_wf};
use crate::textures::TextureManager;
use crate::trace::{cast_ray, cast_ray_spec};

verus! {

/// The tangent of half the vertical field of view (sixty degrees whole,
/// so about 0.5774).
pub const PERSPECTIVE_SCALE: i64 = 37837;

/// An eye point with a right-handed orthonormal basis; `back` points away
/// from what the camera looks at.
#[derive(Clone, Copy, Debug, PartialEq, Eq, Structural)]
pub struct Camera {
    pub eye: Vec3,
    pub right: Vec3,
    pub up: Vec3,
    pub back: Vec3,
}

/// Ghost model of [`Camera`].
pub ghost struct CameraV {
    pub eye: Vec3V,
    pub right: Vec3V,
    pub up: Vec3V,
    pub back: Vec3V,
}

impl View for Camera {
    type V = CameraV;

    open spec fn view(&self) -> CameraV {
        CameraV { eye: self.eye@, right: self.right@, up: self.up@, back: self.back@ }
    }
}

/// The backward axis a camera derives: from the target to the eye.
pub open spec fn camera_back_spec(eye: Vec3V, center: Vec3V) -> Vec3V {
    v3_normalize_spec(v3_sub_spec(eye, center))
}

/// The right axis: the up hint crossed with the backward axis.
pub open spec fn camera_right_spec(eye: Vec3V, center: Vec3V, up_hint: Vec3V) -> Vec3V {
    v3_normalize_spec(v3_cross_spec(up_hint, camera_back_spec(eye, center)))
}

/// The true up axis: backward crossed with right.
pub open spec fn camera_up_spec(eye: Vec3V, center: Vec3V, up_hint: Vec3V) -> Vec3V {
    v3_normalize_spec(v3_cross_spec(
        camera_back_spec(eye, center), camera_right_spec(eye, center, up_hint)))
}

impl Camera {
    /// A camera at `eye` looking at `center`, its roll fixed by an up hint.
    pub fn new(eye: Vec3, center: Vec3, up_hint: Vec3) -> (r: Camera)
        ensures
            r@.eye == eye@,
            r@.back == camera_back_spec(eye@, center@),
            r@.right == camera_right_spec(eye@, center@, up_hint@),
            r@.up == camera_up_spec(eye@, center@, up_hint@),
    {
        let back = eye.sub(center).normalized();
        let right = up_hint.cross(back).normalized();
        let up = back.cross(right).normalized();
        proof {
            assert(up@ == camera_up_spec(eye@, center@, up_hint@));
        }
        Camera { eye, right, up, back }
    }

    /// Carry a camera-space vector into the world:
    /// `v.x right + v.y up + v.z back`.
    pub fn basis_change(&self, v: Vec3) -> (r: Vec3)
        ensures r@ == basis_change_spec(self@, v@),
    {
        self.right.scale(v.x).add(self.up.scale(v.y)).add(self.back.scale(v.z))
    }
}

/// A camera basis applied to a camera-space vector.
pub open spec fn basis_change_spec(cam: CameraV, v: Vec3V) -> Vec3V {
    v3_add_spec(
        v3_add_spec(v3_scale_spec(cam.right, v.x), v3_scale_spec(cam.up, v.y)),
        v3_scale_spec(cam.back, v.z),
    )
}

/// The world-space direction through a pixel: its centerless screen
/// coordinates in `[-1, 1]`, the horizontal one stretched by the aspect
/// ratio, both scaled by the field of view, sent through the basis and
/// normalized at each step.
pub open spec fn pixel_ray_dir_spec(cam: CameraV, x: int, y: int, w: int, h: int) -> Vec3V
    recommends w >= 1, h >= 1,
{
    let wf = w * (FRAC as int);
    let hf = h * (FRAC as int);
    let sx0 = sat_i64(fx_div_spec(sat_i64(2 * (x * (FRAC as int))), wf) - FRAC as int);
    let sy0 = sat_i64(sat_i64(-fx_div_spec(sat_i64(2 * (y * (FRAC as int))), hf)) + FRAC as int);
    let aspect = fx_div_spec(wf, hf);
    let sx = fx_mul_spec(fx_mul_spec(sx0, aspect), PERSPECTIVE_SCALE as int);
    let sy = fx_mul_spec(sy0, PERSPECTIVE_SCALE as int);
    let rd_cam = v3_normalize_spec(v3(sx, sy, -(FRAC as int)));
    v3_normalize_spec(basis_change_spec(cam, rd_cam))
}

/// The direction of the primary ray through pixel `(x, y)` of a
/// `width` by `height` image.
pub fn pixel_ray_dir(cam: &Camera, x: u32, y: u32, width: u32, height: u32) -> (r: Vec3)
    requires width >= 1, height >= 1,
    ensures r@ == pixel_ray_dir_spec(cam@, x as int, y as int, width as int, height as int),
{
    let wf: i64 = (width as i64) * FRAC;
    let hf: i64 = (height as i64) * FRAC;
    let xf: i64 = (x as i64) * FRAC;
    let yf: i64 = (y as i64) * FRAC;
    let sx0 = fx_sub(fx_div(fx_muli(xf, 2), wf), FRAC);
    let sy0 = fx_add(fx_neg(fx_div(fx_muli(yf, 2), hf)), FRAC);
    let aspect = fx_div(wf, hf);
    let sx = fx_mul(fx_mul(sx0, aspect), PERSPECTIVE_SCALE);
    let sy = fx_mul(sy0, PERSPECTIVE_SCALE);
    let rd_cam = Vec3::new(sx, sy, -FRAC).normalized();
    cam.basis_change(rd_cam).normalized()
}

/// The traced color of one pixel: the primary ray from the eye, cast at
/// depth zero.
pub open spec fn pixel_color_spec(
    objects: Seq<Object>, lights: Seq<PointLight>, store: &TextureManager, sky: SkyV,
    cam: CameraV, x: int, y: int, w: int, h: int,
) -> RgbaV {
    cast_ray_spec(objects, lights, store, sky, cam.eye,
        pixel_ray_dir_spec(cam, x, y, w, h), 0)
}

/// Trace one pixel.
pub fn render_pixel(
    objects: &Vec<Object>, lights: &Vec<PointLight>, store: &TextureManager, sky: &Sky,
    cam: &Camera, x: u32, y: u32, width: u32, height: u32,
) -> (r: Rgba)
    requires width >= 1, height >= 1, sky_wf(sky@),
    ensures r@ == pixel_color_spec(objects@, lights@, store, sky@, cam@,
        x as int, y as int, width as int, height as int),
{
    let rd = pixel_ray_dir(cam, x, y, width, height);
    cast_ray(&cam.eye, &rd, objects, lights, store, sky, 0)
}

/// Trace one row of the image, left to right.
pub fn render_row(
    objects: &Vec<Object>, lights: &Vec<PointLight>, store: &TextureManager, sky: &Sky,
    cam: &Camera, y: u32, width: u32, height: u32,
) -> (row: Vec<Rgba>)
    requires width >= 1, height >= 1, sky_wf(sky@),
    ensures
        row@.len() == width as int,
        forall|x: int| 0 <= x < width as int
            ==> #[trigger] row@[x]@ == pixel_color_spec(objects@, lights@, store, sky@, cam@,
                x, y as int, width as int, height as int),
{
    let mut row: Vec<Rgba> = Vec::new();
    let mut x: u32 = 0;
    while x < width
        invariant
            x <= width,
            width >= 1,
            height >= 1,
            sky_wf(sky@),
            row@.len() == x as int,
            forall|j: int| 0 <= j < x as int
                ==> #[trigger] row@[j]@ == pixel_color_spec(objects@, lights@, store, sky@, cam@,
                    j, y as int, width as int, height as int),
        decreases width - x,
    {
        row.push(render_pixel(objects, lights, store, sky, cam, x, y, width, height));
        x = x + 1;
    }
    row
}

/// Trace the whole image, row-major: entry `k` is the pixel at column
/// `k % width` of row `k / width`.
pub fn render(
    objects: &Vec<Object>, lights: &Vec<PointLight>, store: &TextureManager, sky: &Sky,
    cam: &Camera, width: u32, height: u32,
) -> (pixels: Vec<Rgba>)
    requires
        width >= 1,
        height >= 1,
        sky_wf(sky@),
        (width as int) * (height as int) <= usize::MAX as int,
    ensures
        pixels@.len() == (width as int) * (height as int),
        forall|k: int| 0 <= k < pixels@.len()
            ==> #[trigger] pixels@[k]@ == pixel_color_spec(objects@, lights@, store, sky@, cam@,
                k % (width as int), k / (width as int), width as int, height as int),
{
    let mut pixels: Vec<Rgba> = Vec::new();
    let mut y: u32 = 0;
    while y < height
        invariant
            y <= height,
            width >= 1,
            height >= 1,
            sky_wf(sky@),
            (width as int) * (height as int) <= usize::MAX as int,
            pixels@.len() == (y as int) * (width as int),
            forall|k: int| 0 <= k < pixels@.len()
                ==> #[trigger] pixels@[k]@ == pixel_color_spec(objects@, lights@, store, sky@, cam@,
                    k % (width as int), k / (width as int), width as int, height as int),
        decreases height - y,
    {
        proof {
            assert((y as int + 1) * (width as int) <= (height as int) * (width as int))
                by (nonlinear_arith)
                requires 0 <= y as int + 1 <= height as int && width as int >= 0;
            assert((height as int) * (width as int) == (width as int) * (height as int))
                by (nonlinear_arith);
        }
        let mut x: u32 = 0;
        while x < width
            invariant
                x <= width,
                y < height,
                width >= 1,
                height >= 1,
                sky_wf(sky@),
                (width as int) * (height as int) <= usize::MAX as int,
                (y as int + 1) * (width as int) <= (width as int) * (height as int),
                pixels@.len() == (y as int) * (width as int) + x as int,
                forall|k: int| 0 <= k < pixels@.len()
                    ==> #[trigger] pixels@[k]@ == pixel_color_spec(objects@, lights@, store, sky@,
                        cam@, k % (width as int), k / (width as int), width as int, height as int),
            decreases width - x,
        {
            proof {
                assert((y as int) * (width as int) + x as int + 1 <= (y as int + 1) * (width as int))
                    by (nonlinear_arith)
                    requires x as int + 1 <= width as int;
            }
            let c = render_pixel(objects, lights, store, sky, cam, x, y, width, height);
            pixels.push(c);
            proof {
                vstd::arithmetic::div_mod::lemma_fundamental_div_mod_converse(
                    (y as int) * (width as int) + x as int, width as int, y as int, x as int);
            }
            x = x + 1;
        }
        y = y + 1;
        proof {
            assert((y as int) * (width as int)
                == (y as int - 1) * (width as int) + (width as int)) by (nonlinear_arith);
        }
    }
    proof {
        assert((height as int) * (width as int) == (width as int) * (height as int))
            by (nonlinear_arith);
    }
    pixels
}

} // verus!
