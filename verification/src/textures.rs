//! In-memory textures and sampling.
//!
//! A texture is a row-major pixel grid; the store maps single-character
//! ids to textures, first binding wins.  Sampling wraps its coordinates
//! into `[0, 1)`, so any real-valued coordinate tiles; a missing texture,
//! a zero-sized grid or an out-of-grid read falls back to white, never to
//! a failure.

use vstd::prelude::*;
use crate::fixed::{fx_wrap_unit, FRAC};
use crate::color::{Rgba, RgbaV, rgba, lerp_color, lerp_color_spec};

verus! {

/// A row-major pixel grid.
pub struct Texture {
    pub width: usize,
    pub height: usize,
    pub pixels: Vec<Rgba>,
}

/// Ghost model of [`Texture`].
pub ghost struct TextureV {
    pub width: int,
    pub height: int,
    pub pixels: Seq<RgbaV>,
}

impl View for Texture {
    type V = TextureV;

    open spec fn view(&self) -> TextureV {
        TextureV {
            width: self.width as int,
            height: self.height as int,
            pixels: self.pixels@.map_values(|p: Rgba| p@),
        }
    }
}

/// One id-to-texture binding.
pub struct TextureEntry {
    pub id: char,
    pub tex: Texture,
}

/// A store of textures, looked up by their character id.
pub struct TextureManager {
    pub entries: Vec<TextureEntry>,
}

/// The pixel read at integer coordinates: white outside the grid or past
/// the end of the pixel list, the stored pixel otherwise.
pub open spec fn pixel_at_spec(t: TextureV, x: int, y: int) -> RgbaV {
    if x < 0 || y < 0 || x >= t.width || y >= t.height {
        rgba(255, 255, 255, 255)
    } else if y * t.width + x >= t.pixels.len() {
        rgba(255, 255, 255, 255)
    } else {
        t.pixels[y * t.width + x]
    }
}

/// Read one pixel; out-of-grid coordinates give white.
pub fn pixel_at(t: &Texture, x: usize, y: usize) -> (r: Rgba)
    ensures r@ == pixel_at_spec(t@, x as int, y as int),
{
    if x >= t.width || y >= t.height {
        return Rgba::white();
    }
    proof {
        assert((y as int) * (t.width as int)
            <= 0xffff_ffff_ffff_ffffint * 0xffff_ffff_ffff_ffffint) by (nonlinear_arith)
            requires
                0 <= y as int <= 0xffff_ffff_ffff_ffffint,
                0 <= t.width as int <= 0xffff_ffff_ffff_ffffint;
        crate::fixed::lemma_mul_sign(y as int, t.width as int);
    }
    let idx: u128 = (y as u128) * (t.width as u128) + (x as u128);
    if idx >= t.pixels.len() as u128 {
        return Rgba::white();
    }
    t.pixels[idx as usize]
}

/// An index held inside a grid extent: `i` when it fits, the last index
/// otherwise.
pub open spec fn clamp_index_spec(i: int, extent: int) -> int
    recommends extent > 0,
{
    if i >= extent { extent - 1 } else { i }
}

/// A nearest (single-pixel) sample at wrapped coordinates: the column is
/// `u` of the way across, the row `1 - v` of the way down, each held
/// inside the grid.
pub open spec fn sample_uv_spec(t: TextureV, u: int, v: int) -> RgbaV {
    if t.width == 0 || t.height == 0 {
        rgba(255, 255, 255, 255)
    } else {
        let uu = u % (FRAC as int);
        let vv = v % (FRAC as int);
        let tx = (uu * t.width) / (FRAC as int);
        let ty = ((FRAC as int - vv) * t.height) / (FRAC as int);
        pixel_at_spec(t, clamp_index_spec(tx, t.width), clamp_index_spec(ty, t.height))
    }
}

/// A bilinear sample at wrapped coordinates: the four pixels around the
/// continuous position (indices held inside the grid), blended by the
/// fractional offsets.
pub open spec fn sample_uv_bilinear_spec(t: TextureV, u: int, v: int) -> RgbaV {
    if t.width == 0 || t.height == 0 {
        rgba(255, 255, 255, 255)
    } else {
        let uu = u % (FRAC as int);
        let vv = v % (FRAC as int);
        let xq = uu * (t.width - 1);
        let yq = (FRAC as int - vv) * (t.height - 1);
        let x0 = clamp_index_spec(xq / (FRAC as int), t.width);
        let y0 = clamp_index_spec(yq / (FRAC as int), t.height);
        let fx = xq % (FRAC as int);
        let fy = yq % (FRAC as int);
        let x1 = clamp_index_spec(x0 + 1, t.width);
        let y1 = clamp_index_spec(y0 + 1, t.height);
        let c00 = pixel_at_spec(t, x0, y0);
        let c10 = pixel_at_spec(t, x1, y0);
        let c01 = pixel_at_spec(t, x0, y1);
        let c11 = pixel_at_spec(t, x1, y1);
        let cx0 = lerp_color_spec(c00, c10, fx);
        let cx1 = lerp_color_spec(c01, c11, fx);
        lerp_color_spec(cx0, cx1, fy)
    }
}

/// Clamp a nonnegative wide index into a positive extent.
fn clamp_index(i: u128, extent: usize) -> (r: usize)
    requires extent > 0,
    ensures r as int == clamp_index_spec(i as int, extent as int),
{
    if i >= extent as u128 {
        extent - 1
    } else {
        i as usize
    }
}

/// Nearest-pixel sample of one texture.
fn sample_uv_tex(t: &Texture, u: i64, v: i64) -> (r: Rgba)
    ensures r@ == sample_uv_spec(t@, u as int, v as int),
{
    if t.width == 0 || t.height == 0 {
        return Rgba::white();
    }
    let uu = fx_wrap_unit(u);
    let vv = fx_wrap_unit(v);
    proof {
        lemma_scaled_extent_fits(uu as int, t.width as int);
        lemma_scaled_extent_fits(65536 - vv as int, t.height as int);
    }
    let tx: u128 = (uu as u128) * (t.width as u128) / 65536;
    let ty: u128 = ((65536 - vv) as u128) * (t.height as u128) / 65536;
    pixel_at(t, clamp_index(tx, t.width), clamp_index(ty, t.height))
}

/// Bilinear sample of one texture.
fn sample_uv_bilinear_tex(t: &Texture, u: i64, v: i64) -> (r: Rgba)
    ensures r@ == sample_uv_bilinear_spec(t@, u as int, v as int),
{
    if t.width == 0 || t.height == 0 {
        return Rgba::white();
    }
    let uu = fx_wrap_unit(u);
    let vv = fx_wrap_unit(v);
    proof {
        lemma_scaled_extent_fits(uu as int, t.width as int - 1);
        lemma_scaled_extent_fits(65536 - vv as int, t.height as int - 1);
    }
    let xq: u128 = (uu as u128) * ((t.width - 1) as u128);
    let yq: u128 = ((65536 - vv) as u128) * ((t.height - 1) as u128);
    let x0 = clamp_index(xq / 65536, t.width);
    let y0 = clamp_index(yq / 65536, t.height);
    let fx = (xq % 65536) as i64;
    let fy = (yq % 65536) as i64;
    let x1 = clamp_index(x0 as u128 + 1, t.width);
    let y1 = clamp_index(y0 as u128 + 1, t.height);
    let c00 = pixel_at(t, x0, y0);
    let c10 = pixel_at(t, x1, y0);
    let c01 = pixel_at(t, x0, y1);
    let c11 = pixel_at(t, x1, y1);
    let cx0 = lerp_color(c00, c10, fx);
    let cx1 = lerp_color(c01, c11, fx);
    lerp_color(cx0, cx1, fy)
}

/// A wrapped coordinate times a grid extent stays far inside the wide
/// integer range.
proof fn lemma_scaled_extent_fits(a: int, b: int)
    requires 0 <= a <= 65536, 0 <= b <= 0xffff_ffff_ffff_ffffint,
    ensures 0 <= a * b <= 65536 * 0xffff_ffff_ffff_ffffint,
{
    assert(0 <= a * b <= 65536 * 0xffff_ffff_ffff_ffffint) by (nonlinear_arith)
        requires 0 <= a <= 65536 && 0 <= b <= 0xffff_ffff_ffff_ffffint;
}

/// The index of the first entry in an id list bound to `id`, if any.
pub open spec fn find_index_spec(ids: Seq<char>, id: char) -> Option<int>
    decreases ids.len(),
{
    if ids.len() == 0 {
        None
    } else if ids[0] == id {
        Some(0int)
    } else {
        match find_index_spec(ids.drop_first(), id) {
            None => None,
            Some(i) => Some(i + 1),
        }
    }
}

/// The ids of a store's entries, in order.
pub open spec fn store_ids_spec(s: &TextureManager) -> Seq<char> {
    s.entries@.map_values(|e: TextureEntry| e.id)
}

/// The texture a store resolves an id to, if any.
pub open spec fn store_lookup_spec(s: &TextureManager, id: char) -> Option<TextureV> {
    match find_index_spec(store_ids_spec(s), id) {
        None => None,
        Some(i) => Some(s.entries@[i].tex@),
    }
}

/// What a store hands back for a nearest-pixel sample: white when the id
/// is unbound, the texture's wrapped sample otherwise.
pub open spec fn store_sample_uv_spec(s: &TextureManager, id: char, u: int, v: int) -> RgbaV {
    match store_lookup_spec(s, id) {
        None => rgba(255, 255, 255, 255),
        Some(t) => sample_uv_spec(t, u, v),
    }
}

/// What a store hands back for a bilinear sample.
pub open spec fn store_sample_uv_bilinear_spec(s: &TextureManager, id: char, u: int, v: int) -> RgbaV {
    match store_lookup_spec(s, id) {
        None => rgba(255, 255, 255, 255),
        Some(t) => sample_uv_bilinear_spec(t, u, v),
    }
}

/// What a store hands back for a raw pixel read at clamped coordinates.
pub open spec fn store_pixel_spec(s: &TextureManager, id: char, tx: int, ty: int) -> RgbaV {
    match store_lookup_spec(s, id) {
        None => rgba(255, 255, 255, 255),
        Some(t) => if t.width == 0 || t.height == 0 {
            rgba(255, 255, 255, 255)
        } else {
            pixel_at_spec(t, clamp_index_spec(tx, t.width), clamp_index_spec(ty, t.height))
        },
    }
}

impl TextureManager {
    /// An empty store.
    pub fn new() -> (r: TextureManager)
        ensures store_ids_spec(&r) =~= Seq::<char>::empty(),
    {
        TextureManager { entries: Vec::new() }
    }

    /// Bind an id to a texture, after any existing bindings.
    pub fn add(&mut self, id: char, tex: Texture)
        ensures
            store_ids_spec(final(self)) =~= store_ids_spec(old(self)).push(id),
            final(self).entries@.len() == old(self).entries@.len() + 1,
            final(self).entries@[old(self).entries@.len() as int].tex@ == tex@,
            forall|k: int| 0 <= k < old(self).entries@.len()
                ==> final(self).entries@[k] == old(self).entries@[k],
    {
        self.entries.push(TextureEntry { id, tex });
    }

    /// Look up the texture bound to an id: the first matching entry.
    pub fn get_texture(&self, id: char) -> (r: Option<&Texture>)
        ensures
            store_lookup_spec(self, id) is None ==> r is None,
            store_lookup_spec(self, id) matches Some(t)
                ==> r matches Some(e) && e@ == t,
    {
        let n = self.entries.len();
        proof {
            assert(store_ids_spec(self).skip(0) =~= store_ids_spec(self));
        }
        let mut i: usize = 0;
        while i < n
            invariant
                i <= n,
                n == self.entries@.len(),
                forall|k: int| 0 <= k < i as int ==> store_ids_spec(self)[k] != id,
                find_index_spec(store_ids_spec(self).skip(i as int), id) matches Some(j)
                    ==> find_index_spec(store_ids_spec(self), id) == Some(j + i as int),
                find_index_spec(store_ids_spec(self).skip(i as int), id) is None
                    ==> find_index_spec(store_ids_spec(self), id) is None,
            decreases n - i,
        {
            proof {
                lemma_find_index_step(store_ids_spec(self), id, i as int);
            }
            if self.entries[i].id == id {
                return Some(&self.entries[i].tex);
            }
            i = i + 1;
        }
        proof {
            lemma_find_index_step(store_ids_spec(self), id, n as int);
        }
        None
    }

    /// Raw pixel read through the store, coordinates held inside the grid.
    pub fn get_pixel_color(&self, id: char, tx: u32, ty: u32) -> (r: Rgba)
        ensures r@ == store_pixel_spec(self, id, tx as int, ty as int),
    {
        match self.get_texture(id) {
            None => Rgba::white(),
            Some(t) => {
                if t.width == 0 || t.height == 0 {
                    Rgba::white()
                } else {
                    pixel_at(t, clamp_index(tx as u128, t.width), clamp_index(ty as u128, t.height))
                }
            },
        }
    }

    /// Nearest-pixel sample through the store.
    pub fn sample_uv(&self, id: char, u: i64, v: i64) -> (r: Rgba)
        ensures r@ == store_sample_uv_spec(self, id, u as int, v as int),
    {
        match self.get_texture(id) {
            None => Rgba::white(),
            Some(t) => sample_uv_tex(t, u, v),
        }
    }

    /// Bilinear sample through the store.
    pub fn sample_uv_bilinear(&self, id: char, u: i64, v: i64) -> (r: Rgba)
        ensures r@ == store_sample_uv_bilinear_spec(self, id, u as int, v as int),
    {
        match self.get_texture(id) {
            None => Rgba::white(),
            Some(t) => sample_uv_bilinear_tex(t, u, v),
        }
    }
}

/// How the search for an id relates a suffix of the id list to the suffix
/// one element shorter: a head match finds index zero, otherwise the
/// result shifts by one; the empty suffix finds nothing.
proof fn lemma_find_index_step(ids: Seq<char>, id: char, i: int)
    requires 0 <= i <= ids.len(),
    ensures
        i < ids.len() && ids[i] == id
            ==> find_index_spec(ids.skip(i), id) == Some(0int),
        i < ids.len() && ids[i] != id
            ==> find_index_spec(ids.skip(i), id) == (match find_index_spec(ids.skip(i + 1), id) {
                    None => None::<int>,
                    Some(j) => Some(j + 1),
                }),
        i == ids.len() ==> find_index_spec(ids.skip(i), id) is None,
{
    if i < ids.len() {
        assert(ids.skip(i).len() == ids.len() - i);
        assert(ids.skip(i)[0] == ids[i]);
        assert(ids.skip(i).drop_first() =~= ids.skip(i + 1));
    } else {
        assert(ids.skip(i).len() == 0);
    }
}

} // verus!
