//! Saturating fixed-point scalars.
//!
//! A scalar is an `i64` holding a real number scaled by `FRAC` (2^16): one
//! unit of the last place is 1/65536.  Every operation widens to `i128`,
//! computes exactly, and saturates the result into the `i64` range, so the
//! arithmetic is total: no operation here overflows or panics.

use vstd::prelude::*;

verus! {

/// Fixed-point scale: the representation of 1.0.
pub const FRAC: i64 = 65536;

/// Half of [`FRAC`]: the representation of 0.5.
pub const HALF: i64 = 32768;

/// Magnitude of an integer.
pub open spec fn iabs(x: int) -> int {
    if x >= 0 { x } else { -x }
}

/// Saturate an integer into the `i64` range.
pub open spec fn sat_i64(x: int) -> int {
    if x > i64::MAX as int {
        i64::MAX as int
    } else if x < i64::MIN as int {
        i64::MIN as int
    } else {
        x
    }
}

/// Quotient rounded toward zero, as hardware division does.
pub open spec fn div_tz(a: int, b: int) -> int
    recommends b != 0,
{
    if (a >= 0) == (b >= 0) {
        iabs(a) / iabs(b)
    } else {
        -(iabs(a) / iabs(b))
    }
}

/// The product of two saturated scalars, scaled back down.
pub open spec fn fx_mul_spec(a: int, b: int) -> int {
    sat_i64(div_tz(a * b, FRAC as int))
}

/// The quotient of two scalars, scaled up before dividing.
pub open spec fn fx_div_spec(a: int, b: int) -> int
    recommends b != 0,
{
    sat_i64(div_tz(a * (FRAC as int), b))
}

/// The magnitude of a product is the product of the magnitudes.
pub proof fn lemma_abs_mul(a: int, b: int)
    ensures iabs(a * b) == iabs(a) * iabs(b),
{
    assert(iabs(a * b) == iabs(a) * iabs(b)) by (nonlinear_arith);
}

/// Sign rules for products.
pub proof fn lemma_mul_sign(a: int, b: int)
    ensures
        (a >= 0 && b >= 0) ==> a * b >= 0,
        (a <= 0 && b <= 0) ==> a * b >= 0,
        (a < 0 && b > 0) ==> a * b < 0,
        (a > 0 && b < 0) ==> a * b < 0,
        (a * b == 0) == (a == 0 || b == 0),
{
    assert((a >= 0 && b >= 0) ==> a * b >= 0) by (nonlinear_arith);
    assert((a <= 0 && b <= 0) ==> a * b >= 0) by (nonlinear_arith);
    assert((a < 0 && b > 0) ==> a * b < 0) by (nonlinear_arith);
    assert((a > 0 && b < 0) ==> a * b < 0) by (nonlinear_arith);
    assert((a * b == 0) == (a == 0 || b == 0)) by (nonlinear_arith);
}

/// Saturating addition.
pub fn fx_add(a: i64, b: i64) -> (r: i64)
    ensures r as int == sat_i64(a + b),
{
    let s: i128 = a as i128 + b as i128;
    if s > i64::MAX as i128 {
        i64::MAX
    } else if s < i64::MIN as i128 {
        i64::MIN
    } else {
        s as i64
    }
}

/// Saturating subtraction.
pub fn fx_sub(a: i64, b: i64) -> (r: i64)
    ensures r as int == sat_i64(a - b),
{
    let s: i128 = a as i128 - b as i128;
    if s > i64::MAX as i128 {
        i64::MAX
    } else if s < i64::MIN as i128 {
        i64::MIN
    } else {
        s as i64
    }
}

/// Saturating negation.
pub fn fx_neg(a: i64) -> (r: i64)
    ensures r as int == sat_i64(-a),
{
    if a == i64::MIN {
        i64::MAX
    } else {
        -a
    }
}

/// Magnitude of an `i64`, widened so that `i64::MIN` needs no special case.
fn mag(a: i64) -> (r: u128)
    ensures r as int == iabs(a as int),
{
    if a >= 0 {
        a as u128
    } else {
        (-(a as i128)) as u128
    }
}

/// Reapply a sign to a nonnegative magnitude, saturating into `i64`.
fn apply_sign(q: u128, neg: bool) -> (r: i64)
    ensures
        neg ==> r as int == sat_i64(-(q as int)),
        !neg ==> r as int == sat_i64(q as int),
{
    if neg {
        if q >= 0x8000_0000_0000_0000u128 {
            i64::MIN
        } else {
            -(q as i64)
        }
    } else {
        if q > i64::MAX as u128 {
            i64::MAX
        } else {
            q as i64
        }
    }
}

/// Saturating fixed-point multiplication: `(a * b) / FRAC`, rounded toward zero.
pub fn fx_mul(a: i64, b: i64) -> (r: i64)
    ensures r as int == fx_mul_spec(a as int, b as int),
{
    let ma: u128 = mag(a);
    let mb: u128 = mag(b);
    proof {
        lemma_abs_mul(a as int, b as int);
        assert(ma * mb <= 0x8000_0000_0000_0000u128 * 0x8000_0000_0000_0000u128) by (nonlinear_arith)
            requires ma <= 0x8000_0000_0000_0000u128 && mb <= 0x8000_0000_0000_0000u128;
    }
    let p: u128 = ma * mb;
    let q: u128 = p / 65536;
    let neg: bool = (a < 0) != (b < 0);
    proof {
        lemma_mul_sign(a as int, b as int);
    }
    apply_sign(q, neg)
}

/// A scaled-down product keeps the sign rules of the product.
pub proof fn lemma_fx_mul_spec_sign(a: int, b: int)
    ensures
        (a >= 0 && b >= 0) ==> fx_mul_spec(a, b) >= 0,
        (a <= 0 && b <= 0) ==> fx_mul_spec(a, b) >= 0,
        (a >= 0 && b <= 0) ==> fx_mul_spec(a, b) <= 0,
        (a <= 0 && b >= 0) ==> fx_mul_spec(a, b) <= 0,
{
    lemma_mul_sign(a, b);
    vstd::arithmetic::div_mod::lemma_div_pos_is_pos(iabs(a * b), 65536int);
}

/// Coordinates small enough that no saturating step in the geometry can
/// clip: comfortably a million world units in either direction.
pub open spec fn moderate(x: int) -> bool {
    -0x10_0000_0000int <= x <= 0x10_0000_0000int
}

/// Clamp a scalar into `[lo, hi]`.
pub open spec fn clamp_spec(x: int, lo: int, hi: int) -> int {
    if x < lo { lo } else if x > hi { hi } else { x }
}

/// Saturating magnitude.
pub fn fx_abs(a: i64) -> (r: i64)
    ensures r as int == sat_i64(iabs(a as int)),
{
    if a >= 0 {
        a
    } else if a == i64::MIN {
        i64::MAX
    } else {
        -a
    }
}

/// The smaller of two scalars.
pub fn fx_min(a: i64, b: i64) -> (r: i64)
    ensures r as int == if a as int <= b as int { a as int } else { b as int },
{
    if a <= b { a } else { b }
}

/// The larger of two scalars.
pub fn fx_max(a: i64, b: i64) -> (r: i64)
    ensures r as int == if a as int >= b as int { a as int } else { b as int },
{
    if a >= b { a } else { b }
}

/// Clamp into `[lo, hi]`.
pub fn fx_clamp(x: i64, lo: i64, hi: i64) -> (r: i64)
    requires lo <= hi,
    ensures r as int == clamp_spec(x as int, lo as int, hi as int),
{
    if x < lo { lo } else if x > hi { hi } else { x }
}

/// Saturating fixed-point division: `(a * FRAC) / b`, rounded toward zero.
pub fn fx_div(a: i64, b: i64) -> (r: i64)
    requires b != 0,
    ensures r as int == fx_div_spec(a as int, b as int),
{
    let ma: u128 = mag(a);
    let mb: u128 = mag(b);
    let p: u128 = ma * 65536;
    let q: u128 = p / mb;
    let neg: bool = (a < 0) != (b < 0);
    proof {
        lemma_abs_mul(a as int, FRAC as int);
        lemma_mul_sign(a as int, FRAC as int);
    }
    apply_sign(q, neg)
}

/// Floor of the square root of a nonnegative integer.
pub open spec fn isqrt_spec(n: int) -> int
    recommends n >= 0,
    decreases n,
{
    if n <= 0 {
        0
    } else {
        let r = isqrt_spec(n - 1);
        if (r + 1) * (r + 1) <= n { r + 1 } else { r }
    }
}

proof fn lemma_sq_mono(x: int, y: int)
    requires 0 <= x <= y,
    ensures x * x <= y * y,
{
    assert(x * x <= y * y) by (nonlinear_arith)
        requires 0 <= x <= y;
}

/// `isqrt_spec(n)` really is the floor of the square root.
pub proof fn lemma_isqrt_bounds(n: int)
    requires n >= 0,
    ensures
        isqrt_spec(n) >= 0,
        isqrt_spec(n) * isqrt_spec(n) <= n,
        n < (isqrt_spec(n) + 1) * (isqrt_spec(n) + 1),
    decreases n,
{
    if n == 0 {
        assert(isqrt_spec(0) == 0);
    } else {
        lemma_isqrt_bounds(n - 1);
        let r = isqrt_spec(n - 1);
        if (r + 1) * (r + 1) <= n {
            assert((r + 1) * (r + 1) < (r + 2) * (r + 2)) by (nonlinear_arith)
                requires r >= 0;
            assert(n - 1 < (r + 1) * (r + 1));
            assert(n < (r + 2) * (r + 2));
        }
    }
}

/// Any integer with the floor-square-root bounds is `isqrt_spec(n)`.
pub proof fn lemma_isqrt_unique(n: int, r: int)
    requires
        n >= 0,
        r >= 0,
        r * r <= n,
        n < (r + 1) * (r + 1),
    ensures r == isqrt_spec(n),
{
    let s = isqrt_spec(n);
    lemma_isqrt_bounds(n);
    if r < s {
        lemma_sq_mono(r + 1, s);
        assert(false);
    } else if s < r {
        lemma_sq_mono(s + 1, r);
        assert(false);
    }
}

/// Floor square root by binary search.
fn isqrt_u128(n: u128) -> (r: u64)
    requires n < 0x4000_0000_0000_0000_0000_0000_0000_0000u128,
    ensures r as int == isqrt_spec(n as int),
{
    let mut lo: u128 = 0;
    let mut hi: u128 = 0x8000_0000_0000_0000u128;
    proof {
        assert((0x8000_0000_0000_0000 as int) * (0x8000_0000_0000_0000 as int)
            == 0x4000_0000_0000_0000_0000_0000_0000_0000 as int) by (nonlinear_arith);
    }
    while hi - lo > 1
        invariant
            lo < hi,
            hi <= 0x8000_0000_0000_0000u128,
            (lo as int) * (lo as int) <= n as int,
            (n as int) < (hi as int) * (hi as int),
        decreases hi - lo,
    {
        let mid: u128 = lo + (hi - lo) / 2;
        proof {
            assert(mid as int * mid as int <= 0x4000_0000_0000_0000_0000_0000_0000_0000int)
                by (nonlinear_arith)
                requires mid as int <= 0x8000_0000_0000_0000int && mid as int >= 0;
        }
        if mid * mid <= n {
            lo = mid;
        } else {
            hi = mid;
        }
    }
    proof {
        lemma_isqrt_unique(n as int, lo as int);
    }
    lo as u64
}

/// Floor square root of a nonnegative scalar: the result `r` is the largest
/// scalar with `r/FRAC <= sqrt(x/FRAC)`, that is `isqrt_spec(x * FRAC)`.
pub fn fx_sqrt(x: i64) -> (r: i64)
    requires x >= 0,
    ensures r as int == isqrt_spec(x as int * FRAC as int),
{
    let n: u128 = (x as u128) * 65536;
    let r = isqrt_u128(n);
    proof {
        lemma_isqrt_bounds(n as int);
        if r as int >= 0x1_0000_0000_0000int {
            lemma_sq_mono(0x1_0000_0000_0000int, r as int);
            assert(false);
        }
    }
    r as i64
}

/// Wrap a scalar into `[0, FRAC)`: the fractional part, as Euclidean remainder.
pub fn fx_wrap_unit(u: i64) -> (r: i64)
    ensures
        r as int == (u as int) % (FRAC as int),
        0 <= r < FRAC,
{
    if u >= 0 {
        ((u as u128) % 65536) as i64
    } else {
        let k: u128 = ((-(u as i128)) as u128) % 65536;
        proof {
            let ui = u as int;
            let ki = k as int;
            let m = ui % 65536;
            vstd::arithmetic::div_mod::lemma_fundamental_div_mod(-ui, 65536int);
            vstd::arithmetic::div_mod::lemma_fundamental_div_mod(ui, 65536int);
            let qn = (-ui) / 65536;
            let qp = ui / 65536;
            assert(m == if ki == 0 { 0int } else { 65536 - ki })
                by (nonlinear_arith)
                requires
                    -ui == 65536 * qn + ki,
                    ui == 65536 * qp + m,
                    0 <= ki,
                    ki < 65536,
                    0 <= m,
                    m < 65536;
        }
        if k == 0 {
            0
        } else {
            (65536 - k) as i64
        }
    }
}

/// Integer power of a scalar: `e` successive fixed-point multiplications.
pub open spec fn fx_pow_spec(b: int, e: nat) -> int
    decreases e,
{
    if e == 0 {
        FRAC as int
    } else {
        fx_mul_spec(b, fx_pow_spec(b, (e - 1) as nat))
    }
}

/// Raise a scalar to a nonnegative integer power.
pub fn fx_pow(b: i64, e: u32) -> (r: i64)
    ensures r as int == fx_pow_spec(b as int, e as nat),
{
    let mut acc: i64 = FRAC;
    let mut i: u32 = 0;
    while i < e
        invariant
            i <= e,
            acc as int == fx_pow_spec(b as int, i as nat),
        decreases e - i,
    {
        acc = fx_mul(b, acc);
        i = i + 1;
    }
    acc
}

/// Saturating product of a scalar and a small whole count (`k` is a plain
/// integer, not a fixed-point value).
pub fn fx_muli(a: i64, k: i64) -> (r: i64)
    ensures r as int == sat_i64(a as int * k as int),
{
    proof {
        assert(-(0x8000_0000_0000_0000int * 0x8000_0000_0000_0000int)
            <= (a as int) * (k as int)
            <= 0x8000_0000_0000_0000int * 0x8000_0000_0000_0000int) by (nonlinear_arith)
            requires
                -0x8000_0000_0000_0000int <= a as int <= 0x7fff_ffff_ffff_ffffint,
                -0x8000_0000_0000_0000int <= k as int <= 0x7fff_ffff_ffff_ffffint;
    }
    let p: i128 = (a as i128) * (k as i128);
    if p > i64::MAX as i128 {
        i64::MAX
    } else if p < i64::MIN as i128 {
        i64::MIN
    } else {
        p as i64
    }
}

/// One quarter turn.
pub const QUARTER: i64 = 16384;

/// Rational sine approximation on the first half turn (`t` in `[0, HALF]`,
/// measured in turns): `64 s / (5 - 16 s)` with `s = t (1/2 - t)`, which is
/// exact at 0, 1/4 and 1/2 and within 0.0016 of the true sine in between.
pub open spec fn sin_half_turn_spec(t: int) -> int
    recommends 0 <= t <= HALF as int,
{
    let s = fx_mul_spec(t, HALF as int - t);
    fx_div_spec(64 * s, 5 * (FRAC as int) - 16 * s)
}

/// Sine of a phase given in turns (`t` in `[0, FRAC)`), by half-turn symmetry.
pub open spec fn sin_turns_spec(t: int) -> int
    recommends 0 <= t < FRAC as int,
{
    if t <= HALF as int {
        sin_half_turn_spec(t)
    } else {
        sat_i64(-sin_half_turn_spec(t - HALF as int))
    }
}

/// Cosine of a phase given in turns: the sine a quarter turn ahead.
pub open spec fn cos_turns_spec(t: int) -> int
    recommends 0 <= t < FRAC as int,
{
    if t < HALF as int + QUARTER as int {
        sin_turns_spec(t + QUARTER as int)
    } else {
        sin_turns_spec(t - (HALF as int + QUARTER as int))
    }
}

fn sin_half_turn(t: i64) -> (r: i64)
    requires 0 <= t <= HALF,
    ensures r as int == sin_half_turn_spec(t as int),
{
    let s = fx_mul(t, HALF - t);
    proof {
        let p = (t as int) * (HALF as int - t as int);
        assert(p <= 0x10000000int) by (nonlinear_arith)
            requires p == (t as int) * (HALF as int - t as int) && 0 <= t as int && t as int <= 32768;
        lemma_mul_sign(t as int, HALF as int - t as int);
        vstd::arithmetic::div_mod::lemma_div_pos_is_pos(p, 65536int);
        vstd::arithmetic::div_mod::lemma_div_is_ordered(p, 0x10000000int, 65536int);
        assert(0x10000000int / 65536int == 4096);
        assert(0 <= s as int <= 4096);
    }
    fx_div(64 * s, 5 * FRAC - 16 * s)
}

/// Sine of a phase in turns.
pub fn fx_sin_turns(t: i64) -> (r: i64)
    requires 0 <= t < FRAC,
    ensures r as int == sin_turns_spec(t as int),
{
    if t <= HALF {
        sin_half_turn(t)
    } else {
        fx_neg(sin_half_turn(t - HALF))
    }
}

/// Cosine of a phase in turns.
pub fn fx_cos_turns(t: i64) -> (r: i64)
    requires 0 <= t < FRAC,
    ensures r as int == cos_turns_spec(t as int),
{
    if t < HALF + QUARTER {
        fx_sin_turns(t + QUARTER)
    } else {
        fx_sin_turns(t - (HALF + QUARTER))
    }
}

/// Arctangent on one octant: for a ratio `z` in `[0, FRAC]`, the angle in
/// turns is approximated by `z/8 + 0.0454 z (1 - z)`, exact at 0 and 1 and
/// within 0.0008 turns in between.
pub open spec fn atan_octant_spec(z: int) -> int {
    sat_i64(fx_mul_spec(8192, z) + fx_mul_spec(fx_mul_spec(2972, z), FRAC as int - z))
}

fn atan_octant(z: i64) -> (r: i64)
    requires 0 <= z <= FRAC,
    ensures r as int == atan_octant_spec(z as int),
{
    fx_add(fx_mul(8192, z), fx_mul(fx_mul(2972, z), FRAC - z))
}

/// A ratio of a smaller nonnegative scalar over a larger positive one stays
/// in the unit interval.
pub proof fn lemma_div_ratio_unit(a: int, b: int)
    requires 0 <= a <= b, b > 0,
    ensures 0 <= fx_div_spec(a, b) <= FRAC as int,
{
    let p = a * (FRAC as int);
    assert(0 <= p <= b * (FRAC as int)) by (nonlinear_arith)
        requires p == a * (FRAC as int) && 0 <= a <= b;
    vstd::arithmetic::div_mod::lemma_div_pos_is_pos(p, b);
    vstd::arithmetic::div_mod::lemma_div_is_ordered(p, b * (FRAC as int), b);
    vstd::arithmetic::div_mod::lemma_div_by_multiple(FRAC as int, b);
    assert(b * (FRAC as int) == (FRAC as int) * b) by (nonlinear_arith);
    assert(iabs(p) == p);
    assert(iabs(b) == b);
}

/// The octant-folded arctangent ratio: the smaller magnitude over the larger.
pub open spec fn atan2_base_spec(y: int, x: int) -> int {
    let ax = sat_i64(iabs(x));
    let ay = sat_i64(iabs(y));
    if ay <= ax {
        atan_octant_spec(fx_div_spec(ay, ax))
    } else {
        sat_i64(QUARTER as int - atan_octant_spec(fx_div_spec(ax, ay)))
    }
}

/// Angle of the point `(x, y)` around the origin, in turns in `[0, FRAC)`:
/// the octant-folded arctangent, unfolded by quadrant and wrapped.
pub open spec fn atan2_turns_spec(y: int, x: int) -> int {
    if x == 0 && y == 0 {
        0
    } else {
        let base = atan2_base_spec(y, x);
        let raw = if x >= 0 && y >= 0 {
            base
        } else if x < 0 && y >= 0 {
            sat_i64(HALF as int - base)
        } else if x < 0 {
            sat_i64(HALF as int + base)
        } else {
            sat_i64(FRAC as int - base)
        };
        raw % (FRAC as int)
    }
}

/// Angle of `(x, y)` around the origin, in turns.
pub fn fx_atan2_turns(y: i64, x: i64) -> (r: i64)
    ensures
        r as int == atan2_turns_spec(y as int, x as int),
        0 <= r < FRAC,
{
    if x == 0 && y == 0 {
        return 0;
    }
    let ax = fx_abs(x);
    let ay = fx_abs(y);
    let base = if ay <= ax {
        let z = fx_div(ay, ax);
        proof {
            lemma_div_ratio_unit(ay as int, ax as int);
        }
        atan_octant(z)
    } else {
        let z = fx_div(ax, ay);
        proof {
            lemma_div_ratio_unit(ax as int, ay as int);
        }
        fx_sub(QUARTER, atan_octant(z))
    };
    let raw = if x >= 0 && y >= 0 {
        base
    } else if x < 0 && y >= 0 {
        fx_sub(HALF, base)
    } else if x < 0 {
        fx_add(HALF, base)
    } else {
        fx_sub(FRAC, base)
    };
    fx_wrap_unit(raw)
}

} // verus!
