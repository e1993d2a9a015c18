//! The export pipeline: mesh in, container or flat buffer out.
//!
//! Each call owns its mesh and buffers exclusively, runs synchronously and
//! either completes or fails atomically: no partial output is ever
//! returned.  A mesh with no triangles is rejected with `EmptyMesh` on
//! both paths; a zero-extent mesh with `DegenerateMesh`; a container over
//! the unsigned 32-bit limit with `SizeLimit`.

use vstd::prelude::*;
use crate::ExportError;
use crate::bounds::{bbox_of_stream, bounding_coords};
use crate::fbits::f64_is_zero;
use crate::glb::{build_glb, glb_of_stream, glb_total_of};
use crate::mesh::Mesh;
use crate::normalize::{normalize, normalized_verts, scale_of};
use crate::pack::{PackOrder, pack_vertices, packed_stream, lemma_packed_stream_len};

verus! {

/// The packed stream of the normalized mesh, in the given order.
pub open spec fn normalized_stream(m: Mesh, target: u64, o: PackOrder) -> Seq<u32> {
    packed_stream(normalized_verts(m.verts@, target), m.tris@, o)
}

/// The GLB container that an export of `m` yields: the normalized mesh,
/// packed in position/color/normal order, framed with its position bounds.
pub open spec fn glb_export_of(m: Mesh, target: u64) -> Seq<u8> {
    let s = normalized_stream(m, target, PackOrder::PosColorNorm);
    glb_of_stream(s, bbox_of_stream(s))
}

/// The total container length that an export of `m` would produce.
pub open spec fn glb_export_total(m: Mesh, target: u64) -> nat {
    let s = normalized_stream(m, target, PackOrder::PosColorNorm);
    glb_total_of(s, bbox_of_stream(s))
}

/// Both export paths produce exactly three vertex records — 27 binary32
/// components — per triangle, whichever field order is selected.
pub proof fn lemma_export_record_count(m: Mesh, target: u64, o: PackOrder)
    ensures
        normalized_stream(m, target, o).len() == 27 * m.tris@.len(),
        normalized_stream(m, target, o).len() / 9 == 3 * m.tris@.len(),
{
    lemma_packed_stream_len(normalized_verts(m.verts@, target), m.tris@, o);
}

/// Normalization keeps the triangle list, so it keeps well-formedness.
proof fn lemma_normalized_wf(m: Mesh, vs2: Seq<crate::mesh::MeshVertex>, t: u64)
    requires
        m.wf(),
        vs2 == normalized_verts(m.verts@, t),
    ensures
        crate::mesh::tris_in_range(vs2, m.tris@),
{
    assert(vs2.len() == m.verts@.len());
}

/// Exports the mesh as a glTF-2.0 Binary container: normalize, pack in
/// position/color/normal order, compute the position bounds, frame.  An
/// empty triangle list yields `EmptyMesh`; a zero bounding-box scale
/// yields `DegenerateMesh` before any division; a container beyond the
/// unsigned 32-bit range yields `SizeLimit`.  On success the bytes are
/// exactly the container of the normalized, packed mesh.
pub fn export_glb(mesh: Mesh, target: u64) -> (r: Result<Vec<u8>, ExportError>)
    requires
        mesh.wf(),
    ensures
        mesh.tris@.len() == 0 ==> r == Err::<Vec<u8>, ExportError>(ExportError::EmptyMesh),
        mesh.tris@.len() > 0 && f64_is_zero(scale_of(mesh.verts@)) ==> r == Err::<
            Vec<u8>,
            ExportError,
        >(ExportError::DegenerateMesh),
        mesh.tris@.len() > 0 && !f64_is_zero(scale_of(mesh.verts@)) ==> {
            &&& (r is Err) <==> glb_export_total(mesh, target) > u32::MAX
            &&& r is Err ==> r == Err::<Vec<u8>, ExportError>(ExportError::SizeLimit)
            &&& r matches Ok(g) ==> g@ == glb_export_of(mesh, target) && g@.len()
                == glb_export_total(mesh, target)
        },
{
    let mut m = mesh;
    let ghost m0 = mesh;
    if m.tris.len() == 0 {
        return Err(ExportError::EmptyMesh);
    }
    match normalize(&mut m, target) {
        Err(e) => {
            return Err(e);
        },
        Ok(()) => {},
    }
    proof {
        lemma_normalized_wf(m0, m.verts@, target);
        lemma_packed_stream_len(
            m.verts@,
            m.tris@,
            PackOrder::PosColorNorm,
        );
    }
    if m.tris.len() > (0xFFFF_FFFFusize - 28) / 108 {
        proof {
            let s = normalized_stream(m0, target, PackOrder::PosColorNorm);
            assert(s.len() == 27 * m0.tris@.len());
            assert(glb_total_of(s, bbox_of_stream(s)) >= 28 + 4 * s.len());
        }
        return Err(ExportError::SizeLimit);
    }
    let stream = pack_vertices(&m, PackOrder::PosColorNorm);
    let bb = bounding_coords(&stream);
    build_glb(&stream, &bb)
}

/// Exports the mesh as a flat, metadata-free binary32 component stream in
/// position/normal/color order, nine components per record, for direct
/// upload into a caller-managed buffer.  The same empty and degenerate
/// checks as the container path apply, so the two paths reject the same
/// meshes.
pub fn export_raw_buffer(mesh: Mesh, target: u64) -> (r: Result<Vec<u32>, ExportError>)
    requires
        mesh.wf(),
        27 * mesh.tris@.len() <= usize::MAX,
    ensures
        mesh.tris@.len() == 0 ==> r == Err::<Vec<u32>, ExportError>(ExportError::EmptyMesh),
        mesh.tris@.len() > 0 && f64_is_zero(scale_of(mesh.verts@)) ==> r == Err::<
            Vec<u32>,
            ExportError,
        >(ExportError::DegenerateMesh),
        mesh.tris@.len() > 0 && !f64_is_zero(scale_of(mesh.verts@)) ==> (r matches Ok(b) && b@
            == normalized_stream(mesh, target, PackOrder::PosNormColor) && b@.len() == 27
            * mesh.tris@.len()),
{
    let mut m = mesh;
    let ghost m0 = mesh;
    if m.tris.len() == 0 {
        return Err(ExportError::EmptyMesh);
    }
    match normalize(&mut m, target) {
        Err(e) => {
            return Err(e);
        },
        Ok(()) => {},
    }
    proof {
        lemma_normalized_wf(m0, m.verts@, target);
    }
    Ok(pack_vertices(&m, PackOrder::PosNormColor))
}

} // verus!
