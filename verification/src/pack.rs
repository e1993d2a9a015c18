//! Flattening of a mesh into a non-indexed, interleaved vertex-record
//! stream: one nine-component binary32 record per triangle corner, with no
//! sharing ("triangle soup").
//!
//! The caller selects the field order explicitly; the two orders are named
//! variants, never inferred from the call site.

use vstd::prelude::*;
use crate::arith::{f32_of_f64, cast32};
use crate::mesh::{Mesh, MeshVertex, Tri};

verus! {

/// The two declared field orders of a packed vertex record.
#[derive(Clone, Copy, Debug, PartialEq, Eq, Structural)]
pub enum PackOrder {
    /// Position, color, normal — used by the GLB container export.
    PosColorNorm,
    /// Position, normal, color — used by the raw buffer export.
    PosNormColor,
}

/// The nine binary32 components of one packed record, each component the
/// binary32 cast of the vertex's binary64 component, in the given order.
pub open spec fn rec9(v: MeshVertex, o: PackOrder) -> Seq<u32> {
    let p = seq![f32_of_f64(v.pos.x), f32_of_f64(v.pos.y), f32_of_f64(v.pos.z)];
    let nm = seq![f32_of_f64(v.norm.x), f32_of_f64(v.norm.y), f32_of_f64(v.norm.z)];
    let c = seq![f32_of_f64(v.color.x), f32_of_f64(v.color.y), f32_of_f64(v.color.z)];
    match o {
        PackOrder::PosColorNorm => p + c + nm,
        PackOrder::PosNormColor => p + nm + c,
    }
}

/// The three records of one triangle, one per corner, in corner order.
pub open spec fn tri_rec(vs: Seq<MeshVertex>, t: Tri, o: PackOrder) -> Seq<u32> {
    rec9(vs[t.a as int], o) + rec9(vs[t.b as int], o) + rec9(vs[t.c as int], o)
}

/// The whole packed stream: the triangles' records concatenated in
/// triangle order.
pub open spec fn packed_stream(vs: Seq<MeshVertex>, ts: Seq<Tri>, o: PackOrder) -> Seq<u32>
    decreases ts.len(),
{
    if ts.len() == 0 {
        Seq::empty()
    } else {
        packed_stream(vs, ts.drop_last(), o) + tri_rec(vs, ts.last(), o)
    }
}

/// The packed stream holds 27 components — three nine-component records —
/// per triangle.
pub proof fn lemma_packed_stream_len(vs: Seq<MeshVertex>, ts: Seq<Tri>, o: PackOrder)
    ensures
        packed_stream(vs, ts, o).len() == 27 * ts.len(),
    decreases ts.len(),
{
    if ts.len() > 0 {
        lemma_packed_stream_len(vs, ts.drop_last(), o);
    }
}

/// Appends the nine components of one vertex record in the given order.
fn push_rec9(out: &mut Vec<u32>, v: &MeshVertex, o: PackOrder)
    ensures
        final(out)@ == old(out)@ + rec9(*v, o),
{
    out.push(cast32(v.pos.x));
    out.push(cast32(v.pos.y));
    out.push(cast32(v.pos.z));
    match o {
        PackOrder::PosColorNorm => {
            out.push(cast32(v.color.x));
            out.push(cast32(v.color.y));
            out.push(cast32(v.color.z));
            out.push(cast32(v.norm.x));
            out.push(cast32(v.norm.y));
            out.push(cast32(v.norm.z));
        },
        PackOrder::PosNormColor => {
            out.push(cast32(v.norm.x));
            out.push(cast32(v.norm.y));
            out.push(cast32(v.norm.z));
            out.push(cast32(v.color.x));
            out.push(cast32(v.color.y));
            out.push(cast32(v.color.z));
        },
    }
    proof {
        assert(out@ =~= old(out)@ + rec9(*v, o));
    }
}

/// Packs the mesh into one record per triangle corner, each binary64
/// component cast down to binary32, in the given field order.  Two
/// triangles sharing a vertex each get an independent record.
pub fn pack_vertices(m: &Mesh, o: PackOrder) -> (r: Vec<u32>)
    requires
        m.wf(),
        27 * m.tris@.len() <= usize::MAX,
    ensures
        r@ == packed_stream(m.verts@, m.tris@, o),
        r@.len() == 27 * m.tris@.len(),
{
    let mut out: Vec<u32> = Vec::new();
    let n = m.tris.len();
    let mut k: usize = 0;
    while k < n
        invariant
            m.wf(),
            27 * m.tris@.len() <= usize::MAX,
            n == m.tris@.len(),
            k <= n,
            out@ == packed_stream(m.verts@, m.tris@.take(k as int), o),
        decreases n - k,
    {
        let t = m.tris[k];
        push_rec9(&mut out, &m.verts[t.a], o);
        push_rec9(&mut out, &m.verts[t.b], o);
        push_rec9(&mut out, &m.verts[t.c], o);
        proof {
            assert(m.tris@.take(k + 1).drop_last() =~= m.tris@.take(k as int));
            assert(m.tris@.take(k + 1).last() == m.tris@[k as int]);
            assert(out@ =~= packed_stream(m.verts@, m.tris@.take(k + 1), o));
        }
        k += 1;
    }
    proof {
        assert(m.tris@.take(n as int) =~= m.tris@);
        lemma_packed_stream_len(m.verts@, m.tris@, o);
    }
    out
}

} // verus!
