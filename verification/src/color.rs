//! Encoded colors and the linear color space.
//!
//! Stored colors are 8-bit RGBA channels.  Lighting math happens on linear
//! fixed-point channels (a [`Vec3`] of scalars in `[0, FRAC]`); decoding
//! divides a channel by 255 and encoding multiplies by 255, clamps and
//! truncates, exactly as the contracts state.

use vstd::prelude::*;
use crate::fixed::{
    fx_clamp, FRAC, iabs, div_tz, clamp_spec,
};
use crate::vec3::{Vec3, Vec3V, v3};

verus! {

/// An encoded color: four 8-bit channels.
#[derive(Clone, Copy, Debug, PartialEq, Eq, Structural)]
pub struct Rgba {
    pub r: u8,
    pub g: u8,
    pub b: u8,
    pub a: u8,
}

/// Ghost model of [`Rgba`].
pub ghost struct RgbaV {
    pub r: int,
    pub g: int,
    pub b: int,
    pub a: int,
}

impl View for Rgba {
    type V = RgbaV;

    open spec fn view(&self) -> RgbaV {
        RgbaV { r: self.r as int, g: self.g as int, b: self.b as int, a: self.a as int }
    }
}

pub open spec fn rgba(r: int, g: int, b: int, a: int) -> RgbaV {
    RgbaV { r: r, g: g, b: b, a: a }
}

impl Rgba {
    /// Build a color from its four channels.
    pub fn new(r: u8, g: u8, b: u8, a: u8) -> (c: Rgba)
        ensures c@ == rgba(r as int, g as int, b as int, a as int),
    {
        Rgba { r, g, b, a }
    }

    /// Opaque white.
    pub fn white() -> (c: Rgba)
        ensures c@ == rgba(255, 255, 255, 255),
    {
        Rgba { r: 255, g: 255, b: 255, a: 255 }
    }

    /// Opaque black.
    pub fn black() -> (c: Rgba)
        ensures c@ == rgba(0, 0, 0, 255),
    {
        Rgba { r: 0, g: 0, b: 0, a: 255 }
    }
}

/// One channel scaled by a fixed-point factor and clamped to its 8-bit range.
pub open spec fn scale_channel_spec(c: int, s: int) -> int {
    clamp_spec(div_tz(c * s, FRAC as int), 0, 255)
}

fn scale_channel(c: u8, s: i64) -> (r: u8)
    ensures r as int == scale_channel_spec(c as int, s as int),
{
    if s <= 0 || c == 0 {
        proof {
            crate::fixed::lemma_mul_sign(c as int, s as int);
            vstd::arithmetic::div_mod::lemma_div_pos_is_pos(iabs((c as int) * (s as int)), 65536int);
        }
        0
    } else {
        proof {
            assert((c as int) * (s as int) <= 255 * 0x7fff_ffff_ffff_ffffint) by (nonlinear_arith)
                requires 0 <= c as int <= 255 && 0 <= s as int <= 0x7fff_ffff_ffff_ffffint;
            crate::fixed::lemma_mul_sign(c as int, s as int);
        }
        let p: u128 = (c as u128) * (s as u128);
        let q: u128 = p / 65536;
        proof {
            crate::fixed::lemma_abs_mul(c as int, s as int);
        }
        if q > 255 {
            255
        } else {
            q as u8
        }
    }
}

/// Scale a color's channels by a fixed-point factor, keeping alpha.
pub open spec fn color_scale_spec(c: RgbaV, s: int) -> RgbaV {
    rgba(
        scale_channel_spec(c.r, s),
        scale_channel_spec(c.g, s),
        scale_channel_spec(c.b, s),
        c.a,
    )
}

/// Scale the red, green and blue channels by `s`, clamping each to `[0, 255]`.
pub fn color_scale(c: Rgba, s: i64) -> (r: Rgba)
    ensures r@ == color_scale_spec(c@, s as int),
{
    Rgba {
        r: scale_channel(c.r, s),
        g: scale_channel(c.g, s),
        b: scale_channel(c.b, s),
        a: c.a,
    }
}

/// Scaling under another name, as shading call sites read better with it.
pub fn color_mul(c: Rgba, f: i64) -> (r: Rgba)
    ensures r@ == color_scale_spec(c@, f as int),
{
    color_scale(c, f)
}

pub open spec fn sat_u8(x: int) -> int {
    if x > 255 { 255 } else { x }
}

/// Channel-wise saturating sum of two colors; the result is opaque.
pub open spec fn color_add_spec(a: RgbaV, b: RgbaV) -> RgbaV {
    rgba(sat_u8(a.r + b.r), sat_u8(a.g + b.g), sat_u8(a.b + b.b), 255)
}

fn add_channel(a: u8, b: u8) -> (r: u8)
    ensures r as int == sat_u8(a as int + b as int),
{
    let s: u16 = a as u16 + b as u16;
    if s > 255 { 255 } else { s as u8 }
}

/// Add two encoded colors channel by channel, saturating at white.
pub fn color_add(a: Rgba, b: Rgba) -> (r: Rgba)
    ensures r@ == color_add_spec(a@, b@),
{
    Rgba {
        r: add_channel(a.r, b.r),
        g: add_channel(a.g, b.g),
        b: add_channel(a.b, b.b),
        a: 255,
    }
}

/// One channel linearly interpolated: `a + (b - a) * t` truncated toward zero.
pub open spec fn lerp_channel_spec(a: int, b: int, t: int) -> int {
    a + div_tz((b - a) * t, FRAC as int)
}

fn lerp_channel(a: u8, b: u8, t: i64) -> (r: u8)
    requires 0 <= t <= FRAC,
    ensures r as int == lerp_channel_spec(a as int, b as int, t as int),
{
    let d: i64 = b as i64 - a as i64;
    proof {
        assert(-(255 * 65536int) <= (d as int) * (t as int) <= 255 * 65536int) by (nonlinear_arith)
            requires -255 <= d as int <= 255 && 0 <= t as int <= 65536;
    }
    let p: i64 = d * t;
    let q: i64 = if p >= 0 {
        ((p as u64) / 65536) as i64
    } else {
        -((((-p) as u64) / 65536) as i64)
    };
    proof {
        let di = d as int;
        let ti = t as int;
        let pi = di * ti;
        let m = iabs(di);
        crate::fixed::lemma_abs_mul(di, ti);
        assert(iabs(ti) == ti);
        assert(m * ti <= m * 65536) by (nonlinear_arith)
            requires 0 <= ti && ti <= 65536 && m >= 0;
        vstd::arithmetic::div_mod::lemma_div_pos_is_pos(iabs(pi), 65536int);
        vstd::arithmetic::div_mod::lemma_div_is_ordered(iabs(pi), m * 65536, 65536int);
        vstd::arithmetic::div_mod::lemma_div_by_multiple(m, 65536int);
        assert(iabs(pi) / 65536 <= m);
        assert(q as int == div_tz(pi, 65536int));
        assert(-m <= q as int && q as int <= m);
        crate::fixed::lemma_mul_sign(di, ti);
        if di >= 0 {
            assert(pi >= 0);
            assert(0 <= q as int && q as int <= di);
        } else {
            assert(pi <= 0);
            assert(di <= q as int && q as int <= 0);
        }
        assert(0 <= a as int + q as int && a as int + q as int <= 255);
    }
    (a as i64 + q) as u8
}

/// Interpolate two colors channel by channel; `t` is clamped to `[0, FRAC]`
/// first and the result is opaque.
pub open spec fn lerp_color_spec(a: RgbaV, b: RgbaV, t: int) -> RgbaV {
    let tc = clamp_spec(t, 0, FRAC as int);
    rgba(
        lerp_channel_spec(a.r, b.r, tc),
        lerp_channel_spec(a.g, b.g, tc),
        lerp_channel_spec(a.b, b.b, tc),
        255,
    )
}

/// Blend from `a` (at `t = 0`) to `b` (at `t = FRAC`).
pub fn lerp_color(a: Rgba, b: Rgba, t: i64) -> (r: Rgba)
    ensures r@ == lerp_color_spec(a@, b@, t as int),
{
    let tc = fx_clamp(t, 0, FRAC);
    Rgba {
        r: lerp_channel(a.r, b.r, tc),
        g: lerp_channel(a.g, b.g, tc),
        b: lerp_channel(a.b, b.b, tc),
        a: 255,
    }
}

/// Decode one 8-bit channel to a linear scalar: `c * FRAC / 255`.
pub open spec fn decode_channel_spec(c: int) -> int {
    (c * (FRAC as int)) / 255
}

fn decode_channel(c: u8) -> (r: i64)
    ensures
        r as int == decode_channel_spec(c as int),
        0 <= r <= FRAC,
{
    proof {
        vstd::arithmetic::div_mod::lemma_div_is_ordered((c as int) * 65536, 255int * 65536, 255int);
    }
    ((c as u64) * 65536 / 255) as i64
}

/// Decode an encoded color into a linear color vector, channel by channel.
pub open spec fn srgb_to_linear_spec(c: RgbaV) -> Vec3V {
    v3(decode_channel_spec(c.r), decode_channel_spec(c.g), decode_channel_spec(c.b))
}

/// The linear light values of an encoded color's red, green and blue.
pub fn srgb_to_linear(c: Rgba) -> (r: Vec3)
    ensures r@ == srgb_to_linear_spec(c@),
{
    Vec3 { x: decode_channel(c.r), y: decode_channel(c.g), z: decode_channel(c.b) }
}

/// Encode one linear scalar back to 8 bits: clamp to `[0, FRAC]`, then
/// `* 255 / FRAC`, truncating.
pub open spec fn encode_channel_spec(x: int) -> int {
    (clamp_spec(x, 0, FRAC as int) * 255) / (FRAC as int)
}

fn encode_channel(x: i64) -> (r: u8)
    ensures r as int == encode_channel_spec(x as int),
{
    let c = fx_clamp(x, 0, FRAC);
    proof {
        vstd::arithmetic::div_mod::lemma_div_is_ordered((c as int) * 255, 65536int * 255, 65536int);
    }
    ((c as u64) * 255 / 65536) as u8
}

/// Encode a linear color vector to an opaque 8-bit color.
pub open spec fn linear_to_srgb_spec(l: Vec3V) -> RgbaV {
    rgba(encode_channel_spec(l.x), encode_channel_spec(l.y), encode_channel_spec(l.z), 255)
}

/// The encoded form of a linear color, channel by channel.
pub fn linear_to_srgb(l: Vec3) -> (r: Rgba)
    ensures r@ == linear_to_srgb_spec(l@),
{
    Rgba {
        r: encode_channel(l.x),
        g: encode_channel(l.y),
        b: encode_channel(l.z),
        a: 255,
    }
}

/// Decoding after encoding loses at most one 8-bit quantum: for any linear
/// channel value in `[0, FRAC]`, the round trip lands within `FRAC / 255`
/// below the original value.
pub proof fn lemma_channel_round_trip(x: int)
    requires 0 <= x <= FRAC as int,
    ensures
        0 <= x - decode_channel_spec(encode_channel_spec(x)) <= (FRAC as int) / 255,
{
    let e = encode_channel_spec(x);
    let d = decode_channel_spec(e);
    vstd::arithmetic::div_mod::lemma_fundamental_div_mod(x * 255, 65536int);
    vstd::arithmetic::div_mod::lemma_fundamental_div_mod(e * 65536, 255int);
    assert(0 <= x - d <= 257) by (nonlinear_arith)
        requires
            x * 255 == 65536 * e + (x * 255) % 65536,
            0 <= (x * 255) % 65536 < 65536,
            e * 65536 == 255 * d + (e * 65536) % 255,
            0 <= (e * 65536) % 255 < 255,
            0 <= x <= 65536;
    assert(65536int / 255 == 257);
}

} // verus!
