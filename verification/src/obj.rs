//! Indexed triangle data.
//!
//! An [`Obj`] holds plain vertex positions and a flat index list, as an
//! asset loader hands them over.  Assembling triangles from the indices is
//! pure logic and happens here; reading any file format does not.

use vstd::prelude::*;
use crate::vec3::{Vec3, Vec3V};

verus! {

/// A triangle: three corner positions.
#[derive(Clone, Copy, Debug, PartialEq, Eq, Structural)]
pub struct Triangle {
    pub v0: Vec3,
    pub v1: Vec3,
    pub v2: Vec3,
}

/// Ghost model of [`Triangle`].
pub ghost struct TriangleV {
    pub v0: Vec3V,
    pub v1: Vec3V,
    pub v2: Vec3V,
}

impl View for Triangle {
    type V = TriangleV;

    open spec fn view(&self) -> TriangleV {
        TriangleV { v0: self.v0@, v1: self.v1@, v2: self.v2@ }
    }
}

/// Vertex positions and triangle indices, in the flat layout meshes use.
pub struct Obj {
    pub vertices: Vec<Vec3>,
    pub indices: Vec<u32>,
}

/// Ghost model of [`Obj`].
pub ghost struct ObjV {
    pub vertices: Seq<Vec3V>,
    pub indices: Seq<u32>,
}

impl View for Obj {
    type V = ObjV;

    open spec fn view(&self) -> ObjV {
        ObjV {
            vertices: self.vertices@.map_values(|v: Vec3| v@),
            indices: self.indices@,
        }
    }
}

/// The triangles named by the first `k` whole index triples: every triple
/// whose three indices are in range contributes one triangle, out-of-range
/// triples and a trailing partial triple are skipped.
pub open spec fn triangles_upto_spec(o: ObjV, k: int) -> Seq<TriangleV>
    decreases k,
{
    if k <= 0 {
        Seq::empty()
    } else {
        let prev = triangles_upto_spec(o, k - 1);
        let base = 3 * (k - 1);
        let i0 = o.indices[base] as int;
        let i1 = o.indices[base + 1] as int;
        let i2 = o.indices[base + 2] as int;
        if i0 < o.vertices.len() && i1 < o.vertices.len() && i2 < o.vertices.len() {
            prev.push(TriangleV {
                v0: o.vertices[i0],
                v1: o.vertices[i1],
                v2: o.vertices[i2],
            })
        } else {
            prev
        }
    }
}

/// All triangles the index list names.
pub open spec fn triangles_spec(o: ObjV) -> Seq<TriangleV> {
    triangles_upto_spec(o, o.indices.len() as int / 3)
}

impl Obj {
    /// Build from plain vertex and index lists.
    pub fn new(vertices: Vec<Vec3>, indices: Vec<u32>) -> (r: Obj)
        ensures
            r@.vertices =~= vertices@.map_values(|v: Vec3| v@),
            r@.indices =~= indices@,
    {
        Obj { vertices, indices }
    }

    /// The vertices in index order, one entry per index.  Indices must be
    /// in range, as the flat lookup has nowhere to send a stray one.
    pub fn get_vertex_array(&self) -> (r: Vec<Vec3>)
        requires
            forall|i: int| 0 <= i < self.indices@.len()
                ==> (self.indices@[i] as int) < self.vertices@.len(),
        ensures
            r@.len() == self.indices@.len(),
            forall|i: int| 0 <= i < r@.len()
                ==> r@[i]@ == self@.vertices[self.indices@[i] as int],
    {
        let mut out: Vec<Vec3> = Vec::new();
        let n = self.indices.len();
        let mut i: usize = 0;
        while i < n
            invariant
                i <= n,
                n == self.indices@.len(),
                out@.len() == i as int,
                forall|j: int| 0 <= j < self.indices@.len()
                    ==> (self.indices@[j] as int) < self.vertices@.len(),
                forall|j: int| 0 <= j < i as int
                    ==> out@[j]@ == self@.vertices[self.indices@[j] as int],
            decreases n - i,
        {
            let idx = self.indices[i] as usize;
            out.push(self.vertices[idx]);
            i = i + 1;
        }
        out
    }

    /// Assemble triangles from whole index triples, skipping any triple
    /// with an out-of-range index and a trailing partial triple.
    pub fn get_triangles(&self) -> (r: Vec<Triangle>)
        ensures r@.map_values(|t: Triangle| t@) =~= triangles_spec(self@),
    {
        let mut out: Vec<Triangle> = Vec::new();
        let ilen: usize = self.indices.len();
        let total: usize = ilen / 3;
        proof {
            vstd::arithmetic::div_mod::lemma_fundamental_div_mod(ilen as int, 3int);
            vstd::arithmetic::div_mod::lemma_mod_division_less_than_divisor(ilen as int, 3int);
            assert(3 * (total as int) <= ilen as int);
        }
        let mut k: usize = 0;
        while k < total
            invariant
                k <= total,
                ilen as int == self.indices@.len(),
                total as int == self.indices@.len() / 3,
                3 * (total as int) <= ilen as int,
                out@.map_values(|t: Triangle| t@) =~= triangles_upto_spec(self@, k as int),
            decreases total - k,
        {
            let base: usize = 3 * k;
            let i0 = self.indices[base] as usize;
            let i1 = self.indices[base + 1] as usize;
            let i2 = self.indices[base + 2] as usize;
            let vlen = self.vertices.len();
            if i0 < vlen && i1 < vlen && i2 < vlen {
                out.push(Triangle {
                    v0: self.vertices[i0],
                    v1: self.vertices[i1],
                    v2: self.vertices[i2],
                });
            }
            k = k + 1;
            proof {
                assert(out@.map_values(|t: Triangle| t@) =~= triangles_upto_spec(self@, k as int));
            }
        }
        out
    }
}

} // verus!
