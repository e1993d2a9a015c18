//! Re-centering and re-scaling of mesh positions into a fixed-size frame.
//!
//! The axis-aligned bounding box is folded over the raw binary64 positions
//! with IEEE min/max starting from the infinity sentinels.  A single uniform
//! scale — the largest axis extent — preserves the aspect ratio; each
//! position becomes `(p - center) / scale * target`.  A zero scale is
//! detected and reported before any division.

use vstd::prelude::*;
use crate::ExportError;
use crate::arith::{f64_add, f64_sub, f64_mul, f64_div, add64, sub64, mul64, div64};
use crate::fbits::{
    f64_min_bits,
    f64_max_bits,
    f64_min,
    f64_max,
    f64_zero,
    f64_is_zero,
    F64_POS_INF,
    F64_NEG_INF,
};
use crate::mesh::{Mesh, MeshVertex, V3F64};

verus! {

/// Bit pattern of the binary64 value two.
pub const F64_TWO: u64 = 0x4000_0000_0000_0000;

/// Bit pattern of the binary64 value 200, the default target size.
pub const TARGET_SIZE_BITS: u64 = 0x4069_0000_0000_0000;

/// IEEE minimum folded over a sequence, starting from `+inf`.
pub open spec fn min_fold64(s: Seq<u64>) -> u64
    decreases s.len(),
{
    if s.len() == 0 {
        F64_POS_INF
    } else {
        f64_min_bits(min_fold64(s.drop_last()), s.last())
    }
}

/// IEEE maximum folded over a sequence, starting from `-inf`.
pub open spec fn max_fold64(s: Seq<u64>) -> u64
    decreases s.len(),
{
    if s.len() == 0 {
        F64_NEG_INF
    } else {
        f64_max_bits(max_fold64(s.drop_last()), s.last())
    }
}

/// The x components of the positions of a vertex sequence.
pub open spec fn pos_xs(vs: Seq<MeshVertex>) -> Seq<u64> {
    vs.map_values(|v: MeshVertex| v.pos.x)
}

/// The y components of the positions of a vertex sequence.
pub open spec fn pos_ys(vs: Seq<MeshVertex>) -> Seq<u64> {
    vs.map_values(|v: MeshVertex| v.pos.y)
}

/// The z components of the positions of a vertex sequence.
pub open spec fn pos_zs(vs: Seq<MeshVertex>) -> Seq<u64> {
    vs.map_values(|v: MeshVertex| v.pos.z)
}

/// Extent of one axis: the fold maximum minus the fold minimum.
pub open spec fn extent_of(s: Seq<u64>) -> u64 {
    f64_sub(max_fold64(s), min_fold64(s))
}

/// The uniform scale of a vertex sequence: the largest axis extent.
pub open spec fn scale_of(vs: Seq<MeshVertex>) -> u64 {
    f64_max_bits(
        f64_max_bits(extent_of(pos_xs(vs)), extent_of(pos_ys(vs))),
        extent_of(pos_zs(vs)),
    )
}

/// Center of one axis: `(max + min) / 2`.
pub open spec fn center_of(s: Seq<u64>) -> u64 {
    f64_div(f64_add(max_fold64(s), min_fold64(s)), F64_TWO)
}

/// One normalized component: `(p - center) / scale * target`.
pub open spec fn norm_component(p: u64, c: u64, sc: u64, t: u64) -> u64 {
    f64_mul(f64_div(f64_sub(p, c), sc), t)
}

/// One vertex with its position normalized; normal and color untouched.
pub open spec fn normalized_vert(
    v: MeshVertex,
    cx: u64,
    cy: u64,
    cz: u64,
    sc: u64,
    t: u64,
) -> MeshVertex {
    MeshVertex {
        pos: V3F64 {
            x: norm_component(v.pos.x, cx, sc, t),
            y: norm_component(v.pos.y, cy, sc, t),
            z: norm_component(v.pos.z, cz, sc, t),
        },
        norm: v.norm,
        color: v.color,
    }
}

/// The vertex sequence with every position normalized against the
/// sequence's own bounding box and uniform scale.
pub open spec fn normalized_verts(vs: Seq<MeshVertex>, t: u64) -> Seq<MeshVertex> {
    vs.map_values(
        |v: MeshVertex|
            normalized_vert(
                v,
                center_of(pos_xs(vs)),
                center_of(pos_ys(vs)),
                center_of(pos_zs(vs)),
                scale_of(vs),
                t,
            ),
    )
}

/// Folding a nonempty sequence of one repeated non-NaN value yields that
/// value for both the min and the max fold.
proof fn lemma_const_fold(s: Seq<u64>, v: u64)
    requires
        s.len() > 0,
        forall|i: int| 0 <= i < s.len() ==> s[i] == v,
        !crate::fbits::f64_is_nan(v),
    ensures
        min_fold64(s) == v,
        max_fold64(s) == v,
    decreases s.len(),
{
    crate::fbits::lemma_f64_fold_units(v);
    if s.len() == 1 {
        assert(s.drop_last().len() == 0);
        assert(min_fold64(s.drop_last()) == F64_POS_INF);
        assert(max_fold64(s.drop_last()) == F64_NEG_INF);
    } else {
        lemma_const_fold(s.drop_last(), v);
    }
    assert(s.last() == v);
}

/// A mesh whose positions are all one finite point has a zero uniform
/// scale: every axis extent is a finite value minus itself, which IEEE
/// subtraction sends to `+0`, and the maximum of zeroes is zero.  Such a
/// mesh is therefore rejected as degenerate, never divided by zero.
pub proof fn lemma_uniform_positions_degenerate(vs: Seq<MeshVertex>, p: V3F64)
    requires
        vs.len() > 0,
        forall|i: int| 0 <= i < vs.len() ==> (#[trigger] vs[i]).pos == p,
        crate::fbits::f64_is_finite(p.x),
        crate::fbits::f64_is_finite(p.y),
        crate::fbits::f64_is_finite(p.z),
    ensures
        f64_is_zero(scale_of(vs)),
{
    assert(forall|i: int| 0 <= i < pos_xs(vs).len() ==> pos_xs(vs)[i] == p.x);
    assert(forall|i: int| 0 <= i < pos_ys(vs).len() ==> pos_ys(vs)[i] == p.y);
    assert(forall|i: int| 0 <= i < pos_zs(vs).len() ==> pos_zs(vs)[i] == p.z);
    crate::fbits::lemma_f64_mag_consts();
    lemma_const_fold(pos_xs(vs), p.x);
    lemma_const_fold(pos_ys(vs), p.y);
    lemma_const_fold(pos_zs(vs), p.z);
    assert(extent_of(pos_xs(vs)) == 0u64);
    assert(extent_of(pos_ys(vs)) == 0u64);
    assert(extent_of(pos_zs(vs)) == 0u64);
    assert(f64_max_bits(0u64, 0u64) == 0u64);
}

/// Extending a sequence by one element extends its min fold by one step.
proof fn lemma_fold_step(s: Seq<u64>, i: int)
    requires
        0 <= i < s.len(),
    ensures
        min_fold64(s.take(i + 1)) == f64_min_bits(min_fold64(s.take(i)), s[i]),
        max_fold64(s.take(i + 1)) == f64_max_bits(max_fold64(s.take(i)), s[i]),
{
    assert(s.take(i + 1).drop_last() =~= s.take(i));
    assert(s.take(i + 1).last() == s[i]);
}

/// Computes the componentwise bounding box of the positions: min and max
/// folds per axis, from the infinity sentinels.
fn position_bounds(verts: &Vec<MeshVertex>) -> (r: (V3F64, V3F64))
    ensures
        r.0 == (V3F64 {
            x: min_fold64(pos_xs(verts@)),
            y: min_fold64(pos_ys(verts@)),
            z: min_fold64(pos_zs(verts@)),
        }),
        r.1 == (V3F64 {
            x: max_fold64(pos_xs(verts@)),
            y: max_fold64(pos_ys(verts@)),
            z: max_fold64(pos_zs(verts@)),
        }),
{
    let n = verts.len();
    let mut min_x: u64 = F64_POS_INF;
    let mut min_y: u64 = F64_POS_INF;
    let mut min_z: u64 = F64_POS_INF;
    let mut max_x: u64 = F64_NEG_INF;
    let mut max_y: u64 = F64_NEG_INF;
    let mut max_z: u64 = F64_NEG_INF;
    let mut i: usize = 0;
    while i < n
        invariant
            n == verts@.len(),
            i <= n,
            min_x == min_fold64(pos_xs(verts@).take(i as int)),
            min_y == min_fold64(pos_ys(verts@).take(i as int)),
            min_z == min_fold64(pos_zs(verts@).take(i as int)),
            max_x == max_fold64(pos_xs(verts@).take(i as int)),
            max_y == max_fold64(pos_ys(verts@).take(i as int)),
            max_z == max_fold64(pos_zs(verts@).take(i as int)),
        decreases n - i,
    {
        let v = verts[i];
        proof {
            lemma_fold_step(pos_xs(verts@), i as int);
            lemma_fold_step(pos_ys(verts@), i as int);
            lemma_fold_step(pos_zs(verts@), i as int);
        }
        min_x = f64_min(min_x, v.pos.x);
        min_y = f64_min(min_y, v.pos.y);
        min_z = f64_min(min_z, v.pos.z);
        max_x = f64_max(max_x, v.pos.x);
        max_y = f64_max(max_y, v.pos.y);
        max_z = f64_max(max_z, v.pos.z);
        i += 1;
    }
    proof {
        assert(pos_xs(verts@).take(n as int) =~= pos_xs(verts@));
        assert(pos_ys(verts@).take(n as int) =~= pos_ys(verts@));
        assert(pos_zs(verts@).take(n as int) =~= pos_zs(verts@));
    }
    (
        V3F64 { x: min_x, y: min_y, z: min_z },
        V3F64 { x: max_x, y: max_y, z: max_z },
    )
}

/// Normalizes the mesh positions in place: every position becomes
/// `(p - center) / scale * target`, where the center and the uniform scale
/// come from the axis-aligned bounding box of the raw positions.  A zero
/// scale (single point or zero-extent mesh) is reported as
/// `DegenerateMesh` before any division, and the mesh is left untouched.
pub fn normalize(m: &mut Mesh, target: u64) -> (r: Result<(), ExportError>)
    ensures
        (r is Err) <==> f64_is_zero(scale_of(old(m).verts@)),
        r is Err ==> r == Err::<(), ExportError>(ExportError::DegenerateMesh) && *final(m)
            == *old(m),
        r is Ok ==> final(m).verts@ == normalized_verts(old(m).verts@, target) && final(m).tris@
            == old(m).tris@,
{
    let (bb_min, bb_max) = position_bounds(&m.verts);
    let ex = sub64(bb_max.x, bb_min.x);
    let ey = sub64(bb_max.y, bb_min.y);
    let ez = sub64(bb_max.z, bb_min.z);
    let sc = f64_max(f64_max(ex, ey), ez);
    if f64_zero(sc) {
        return Err(ExportError::DegenerateMesh);
    }
    let cx = div64(add64(bb_max.x, bb_min.x), F64_TWO);
    let cy = div64(add64(bb_max.y, bb_min.y), F64_TWO);
    let cz = div64(add64(bb_max.z, bb_min.z), F64_TWO);
    let n = m.verts.len();
    let mut i: usize = 0;
    while i < n
        invariant
            n == m.verts@.len(),
            i <= n,
            m.tris@ == old(m).tris@,
            cx == center_of(pos_xs(old(m).verts@)),
            cy == center_of(pos_ys(old(m).verts@)),
            cz == center_of(pos_zs(old(m).verts@)),
            sc == scale_of(old(m).verts@),
            forall|j: int|
                i <= j < n ==> (#[trigger] m.verts@[j]) == old(m).verts@[j],
            forall|j: int|
                0 <= j < i ==> (#[trigger] m.verts@[j]) == normalized_vert(
                    old(m).verts@[j],
                    cx,
                    cy,
                    cz,
                    sc,
                    target,
                ),
        decreases n - i,
    {
        let v = m.verts[i];
        let nx = mul64(div64(sub64(v.pos.x, cx), sc), target);
        let ny = mul64(div64(sub64(v.pos.y, cy), sc), target);
        let nz = mul64(div64(sub64(v.pos.z, cz), sc), target);
        m.verts.set(
            i,
            MeshVertex { pos: V3F64 { x: nx, y: ny, z: nz }, norm: v.norm, color: v.color },
        );
        i += 1;
    }
    proof {
        assert(m.verts@ =~= normalized_verts(old(m).verts@, target));
    }
    Ok(())
}

} // verus!
