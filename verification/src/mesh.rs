//! The triangulated mesh handed over by the external triangulator.
//!
//! Scalars are binary64 bit patterns.  Each vertex carries a position, a
//! normal and a color; each triangle is three indices into the vertex list.
//! The well-formedness invariant is that every index is in range.

use vstd::prelude::*;
use crate::ExportError;

verus! {

/// Three binary64 components, as bit patterns.
#[derive(Clone, Copy, Debug, PartialEq, Eq, Structural)]
pub struct V3F64 {
    pub x: u64,
    pub y: u64,
    pub z: u64,
}

/// One vertex of the mesh: position, normal and color.
#[derive(Clone, Copy, Debug, PartialEq, Eq, Structural)]
pub struct MeshVertex {
    pub pos: V3F64,
    pub norm: V3F64,
    pub color: V3F64,
}

/// One triangle: three indices into the vertex list.
#[derive(Clone, Copy, Debug, PartialEq, Eq, Structural)]
pub struct Tri {
    pub a: usize,
    pub b: usize,
    pub c: usize,
}

/// A triangulated mesh: vertices plus triangles over them.
#[derive(Debug)]
pub struct Mesh {
    pub verts: Vec<MeshVertex>,
    pub tris: Vec<Tri>,
}

/// Whether every index of every triangle points at a vertex.
pub open spec fn tris_in_range(verts: Seq<MeshVertex>, tris: Seq<Tri>) -> bool {
    forall|i: int|
        0 <= i < tris.len() ==> (#[trigger] tris[i]).a < verts.len() && tris[i].b < verts.len()
            && tris[i].c < verts.len()
}

impl Mesh {
    /// Every triangle index is in range.
    pub open spec fn wf(self) -> bool {
        tris_in_range(self.verts@, self.tris@)
    }

    /// Assembles a mesh from per-vertex attribute lists and a triangle
    /// list.  Fails with `MeshRead` when the triangulator omitted a
    /// required per-vertex attribute (the lists differ in length) or handed
    /// over an index out of range; succeeds exactly otherwise.
    pub fn new(positions: Vec<V3F64>, normals: Vec<V3F64>, colors: Vec<V3F64>, tris: Vec<Tri>) -> (r:
        Result<Mesh, ExportError>)
        ensures
            r matches Ok(m) ==> {
                &&& m.wf()
                &&& m.tris@ == tris@
                &&& m.verts@.len() == positions@.len()
                &&& forall|i: int|
                    0 <= i < positions@.len() ==> (#[trigger] m.verts@[i]) == (MeshVertex {
                        pos: positions@[i],
                        norm: normals@[i],
                        color: colors@[i],
                    })
            },
            (r is Ok) <==> (normals@.len() == positions@.len() && colors@.len()
                == positions@.len() && tris_in_range_n(positions@.len(), tris@)),
            r is Err ==> r == Err::<Mesh, ExportError>(ExportError::MeshRead),
    {
        let n = positions.len();
        if normals.len() != n || colors.len() != n {
            return Err(ExportError::MeshRead);
        }
        let mut k: usize = 0;
        while k < tris.len()
            invariant
                n == positions@.len(),
                forall|i: int|
                    0 <= i < k ==> (#[trigger] tris@[i]).a < n && tris@[i].b < n && tris@[i].c < n,
                k <= tris@.len(),
            decreases tris@.len() - k,
        {
            let t = tris[k];
            if t.a >= n || t.b >= n || t.c >= n {
                return Err(ExportError::MeshRead);
            }
            k += 1;
        }
        let mut verts: Vec<MeshVertex> = Vec::new();
        let mut i: usize = 0;
        while i < n
            invariant
                n == positions@.len(),
                normals@.len() == n,
                colors@.len() == n,
                i <= n,
                verts@.len() == i,
                forall|j: int|
                    0 <= j < i ==> (#[trigger] verts@[j]) == (MeshVertex {
                        pos: positions@[j],
                        norm: normals@[j],
                        color: colors@[j],
                    }),
            decreases n - i,
        {
            verts.push(MeshVertex { pos: positions[i], norm: normals[i], color: colors[i] });
            i += 1;
        }
        Ok(Mesh { verts, tris })
    }
}

/// Whether every index of every triangle is below `n`.
pub open spec fn tris_in_range_n(n: nat, tris: Seq<Tri>) -> bool {
    forall|i: int|
        0 <= i < tris.len() ==> (#[trigger] tris[i]).a < n && tris[i].b < n && tris[i].c < n
}

} // verus!
