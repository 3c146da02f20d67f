//! 3- and 2-component fixed-point vectors.
//!
//! Executable vectors hold saturating fixed-point scalars (`i64` bits, see
//! [`crate::fixed`]); each has a ghost model with unbounded `int` components,
//! and every operation's contract pins the result to a spec-level mirror of
//! the same arithmetic.

use vstd::prelude::*;
use crate::fixed::{
    fx_add, fx_sub, fx_neg, fx_mul, fx_div, fx_sqrt,
    sat_i64, fx_mul_spec, fx_div_spec, isqrt_spec, FRAC,
};

verus! {

/// A point or direction in space, in fixed-point coordinates.
#[derive(Clone, Copy, Debug, PartialEq, Eq, Structural)]
pub struct Vec3 {
    pub x: i64,
    pub y: i64,
    pub z: i64,
}

/// Ghost model of [`Vec3`]: the same components as unbounded integers.
pub ghost struct Vec3V {
    pub x: int,
    pub y: int,
    pub z: int,
}

impl View for Vec3 {
    type V = Vec3V;

    open spec fn view(&self) -> Vec3V {
        Vec3V { x: self.x as int, y: self.y as int, z: self.z as int }
    }
}

/// A texture coordinate pair.
#[derive(Clone, Copy, Debug, PartialEq, Eq, Structural)]
pub struct Vec2 {
    pub x: i64,
    pub y: i64,
}

/// Ghost model of [`Vec2`].
pub ghost struct Vec2V {
    pub x: int,
    pub y: int,
}

impl View for Vec2 {
    type V = Vec2V;

    open spec fn view(&self) -> Vec2V {
        Vec2V { x: self.x as int, y: self.y as int }
    }
}

pub open spec fn v3(x: int, y: int, z: int) -> Vec3V {
    Vec3V { x: x, y: y, z: z }
}

pub open spec fn v3_zero() -> Vec3V {
    v3(0, 0, 0)
}

pub open spec fn v3_add_spec(a: Vec3V, b: Vec3V) -> Vec3V {
    v3(sat_i64(a.x + b.x), sat_i64(a.y + b.y), sat_i64(a.z + b.z))
}

pub open spec fn v3_sub_spec(a: Vec3V, b: Vec3V) -> Vec3V {
    v3(sat_i64(a.x - b.x), sat_i64(a.y - b.y), sat_i64(a.z - b.z))
}

pub open spec fn v3_neg_spec(a: Vec3V) -> Vec3V {
    v3(sat_i64(-a.x), sat_i64(-a.y), sat_i64(-a.z))
}

pub open spec fn v3_scale_spec(a: Vec3V, s: int) -> Vec3V {
    v3(fx_mul_spec(a.x, s), fx_mul_spec(a.y, s), fx_mul_spec(a.z, s))
}

pub open spec fn v3_dot_spec(a: Vec3V, b: Vec3V) -> int {
    sat_i64(sat_i64(fx_mul_spec(a.x, b.x) + fx_mul_spec(a.y, b.y)) + fx_mul_spec(a.z, b.z))
}

pub open spec fn v3_cross_spec(a: Vec3V, b: Vec3V) -> Vec3V {
    v3(
        sat_i64(fx_mul_spec(a.y, b.z) - fx_mul_spec(a.z, b.y)),
        sat_i64(fx_mul_spec(a.z, b.x) - fx_mul_spec(a.x, b.z)),
        sat_i64(fx_mul_spec(a.x, b.y) - fx_mul_spec(a.y, b.x)),
    )
}

/// The Euclidean length: the floor square root of the dot product with itself.
pub open spec fn v3_length_spec(a: Vec3V) -> int {
    if v3_dot_spec(a, a) >= 0 {
        isqrt_spec(v3_dot_spec(a, a) * (FRAC as int))
    } else {
        0
    }
}

/// Unit direction: each component divided by the length; the zero vector
/// (and any vector whose squared length saturates below zero) stays zero.
pub open spec fn v3_normalize_spec(a: Vec3V) -> Vec3V {
    let len = v3_length_spec(a);
    if len == 0 {
        v3_zero()
    } else {
        v3(fx_div_spec(a.x, len), fx_div_spec(a.y, len), fx_div_spec(a.z, len))
    }
}

/// A vector's dot product with itself is never negative: each squared
/// component scales down to a nonnegative scalar and the saturating sums
/// keep the sign.
pub proof fn lemma_dot_self_nonneg(a: Vec3V)
    ensures v3_dot_spec(a, a) >= 0,
{
    crate::fixed::lemma_mul_sign(a.x, a.x);
    crate::fixed::lemma_mul_sign(a.y, a.y);
    crate::fixed::lemma_mul_sign(a.z, a.z);
    vstd::arithmetic::div_mod::lemma_div_pos_is_pos(crate::fixed::iabs(a.x * a.x), 65536int);
    vstd::arithmetic::div_mod::lemma_div_pos_is_pos(crate::fixed::iabs(a.y * a.y), 65536int);
    vstd::arithmetic::div_mod::lemma_div_pos_is_pos(crate::fixed::iabs(a.z * a.z), 65536int);
}

impl Vec3 {
    /// Build a vector from raw fixed-point components.
    pub fn new(x: i64, y: i64, z: i64) -> (r: Vec3)
        ensures r@ == v3(x as int, y as int, z as int),
    {
        Vec3 { x, y, z }
    }

    /// The zero vector.
    pub fn zero() -> (r: Vec3)
        ensures r@ == v3_zero(),
    {
        Vec3 { x: 0, y: 0, z: 0 }
    }

    /// Component-wise saturating sum.
    pub fn add(self, o: Vec3) -> (r: Vec3)
        ensures r@ == v3_add_spec(self@, o@),
    {
        Vec3 { x: fx_add(self.x, o.x), y: fx_add(self.y, o.y), z: fx_add(self.z, o.z) }
    }

    /// Component-wise saturating difference.
    pub fn sub(self, o: Vec3) -> (r: Vec3)
        ensures r@ == v3_sub_spec(self@, o@),
    {
        Vec3 { x: fx_sub(self.x, o.x), y: fx_sub(self.y, o.y), z: fx_sub(self.z, o.z) }
    }

    /// Component-wise saturating negation.
    pub fn neg(self) -> (r: Vec3)
        ensures r@ == v3_neg_spec(self@),
    {
        Vec3 { x: fx_neg(self.x), y: fx_neg(self.y), z: fx_neg(self.z) }
    }

    /// Scale every component by a fixed-point factor.
    pub fn scale(self, s: i64) -> (r: Vec3)
        ensures r@ == v3_scale_spec(self@, s as int),
    {
        Vec3 { x: fx_mul(self.x, s), y: fx_mul(self.y, s), z: fx_mul(self.z, s) }
    }

    /// Fixed-point dot product.
    pub fn dot(self, o: Vec3) -> (r: i64)
        ensures r as int == v3_dot_spec(self@, o@),
    {
        fx_add(fx_add(fx_mul(self.x, o.x), fx_mul(self.y, o.y)), fx_mul(self.z, o.z))
    }

    /// Fixed-point cross product.
    pub fn cross(self, o: Vec3) -> (r: Vec3)
        ensures r@ == v3_cross_spec(self@, o@),
    {
        Vec3 {
            x: fx_sub(fx_mul(self.y, o.z), fx_mul(self.z, o.y)),
            y: fx_sub(fx_mul(self.z, o.x), fx_mul(self.x, o.z)),
            z: fx_sub(fx_mul(self.x, o.y), fx_mul(self.y, o.x)),
        }
    }

    /// Divide every component by a nonzero scalar.
    pub fn div_s(self, s: i64) -> (r: Vec3)
        requires s != 0,
        ensures r@ == (Vec3V {
            x: fx_div_spec(self@.x, s as int),
            y: fx_div_spec(self@.y, s as int),
            z: fx_div_spec(self@.z, s as int),
        }),
    {
        Vec3 { x: fx_div(self.x, s), y: fx_div(self.y, s), z: fx_div(self.z, s) }
    }

    /// Euclidean length.  A squared length saturated to a negative value is
    /// treated as zero.
    pub fn length(self) -> (r: i64)
        ensures r as int == v3_length_spec(self@),
    {
        let d = self.dot(self);
        if d >= 0 {
            fx_sqrt(d)
        } else {
            0
        }
    }

    /// Unit vector in the same direction; the zero vector stays zero.
    pub fn normalized(self) -> (r: Vec3)
        ensures r@ == v3_normalize_spec(self@),
    {
        let len = self.length();
        if len == 0 {
            Vec3::zero()
        } else {
            Vec3 { x: fx_div(self.x, len), y: fx_div(self.y, len), z: fx_div(self.z, len) }
        }
    }
}

impl Vec2 {
    /// Build a coordinate pair from raw fixed-point components.
    pub fn new(x: i64, y: i64) -> (r: Vec2)
        ensures r@ == (Vec2V { x: x as int, y: y as int }),
    {
        Vec2 { x, y }
    }

    /// The origin pair.
    pub fn zero() -> (r: Vec2)
        ensures r@ == (Vec2V { x: 0, y: 0 }),
    {
        Vec2 { x: 0, y: 0 }
    }
}

} // verus!
