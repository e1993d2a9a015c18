//! Conversion of a triangulated mesh into geometry-interchange payloads.
//!
//! The pipeline re-centers and re-scales a mesh into a fixed-size coordinate
//! frame, flattens it into a non-indexed interleaved vertex-record stream in
//! one of two declared field orders, and emits either a glTF-2.0 Binary (GLB)
//! container or a flat, metadata-free record stream.
//!
//! Every IEEE-754 scalar is carried as its bit pattern: `u64` for a binary64
//! value, `u32` for a binary32 value.  Comparisons and classification are
//! implemented directly on the bit patterns; rounding arithmetic goes through
//! a software floating-point library.

use vstd::prelude::*;

pub mod arith;
pub mod bounds;
pub mod fbits;
pub mod glb;
pub mod gpu;
pub mod mesh;
pub mod normalize;
pub mod pack;
pub mod pipeline;

verus! {

/// Why an export call was aborted.  No error is downgraded to a default
/// value: each one aborts the whole call and no partial output is returned.
///
/// JSON encoding cannot fail here — the document is framed byte by byte by
/// total functions — so no serialization failure is possible.
#[derive(Clone, Copy, Debug, PartialEq, Eq, Structural)]
pub enum ExportError {
    /// The bounding-box scale of the mesh is zero (single point or
    /// zero-extent mesh); detected before any division happens.
    DegenerateMesh,
    /// The triangulator handed over per-vertex attribute lists of differing
    /// lengths, or a triangle index out of range.
    MeshRead,
    /// The mesh has no triangles.  An export of an empty mesh is rejected
    /// rather than encoded as a zero-count container.
    EmptyMesh,
    /// The total GLB length would exceed the unsigned 32-bit range.
    SizeLimit,
}

} // verus!
