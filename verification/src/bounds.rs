//! Componentwise bounds over the positions of a packed vertex stream.
//!
//! The stream is the flat nine-component record stream; a record's first
//! three components are its position.  Each axis is folded with IEEE
//! min/max from the infinity sentinels; NaN inputs are not filtered.

use vstd::prelude::*;
use crate::fbits::{
    f32_min_bits,
    f32_max_bits,
    f32_min,
    f32_max,
    F32_POS_INF,
    F32_NEG_INF,
};

verus! {

/// Three binary32 components, as bit patterns.
#[derive(Clone, Copy, Debug, PartialEq, Eq, Structural)]
pub struct V3F32 {
    pub x: u32,
    pub y: u32,
    pub z: u32,
}

/// An axis-aligned bounding box over binary32 positions.
#[derive(Clone, Copy, Debug, PartialEq, Eq, Structural)]
pub struct BoundingBox {
    pub min: V3F32,
    pub max: V3F32,
}

/// IEEE minimum folded over a sequence, starting from `+inf`.
pub open spec fn min_fold32(s: Seq<u32>) -> u32
    decreases s.len(),
{
    if s.len() == 0 {
        F32_POS_INF
    } else {
        f32_min_bits(min_fold32(s.drop_last()), s.last())
    }
}

/// IEEE maximum folded over a sequence, starting from `-inf`.
pub open spec fn max_fold32(s: Seq<u32>) -> u32
    decreases s.len(),
{
    if s.len() == 0 {
        F32_NEG_INF
    } else {
        f32_max_bits(max_fold32(s.drop_last()), s.last())
    }
}

/// The position components of axis `axis` (0, 1 or 2) of every record of
/// a flat nine-component record stream.
pub open spec fn stream_axis(s: Seq<u32>, axis: int) -> Seq<u32> {
    Seq::new((s.len() / 9) as nat, |i: int| s[9 * i + axis])
}

/// The bounding box of a packed stream: per-axis min and max folds over
/// the record positions.
pub open spec fn bbox_of_stream(s: Seq<u32>) -> BoundingBox {
    BoundingBox {
        min: V3F32 {
            x: min_fold32(stream_axis(s, 0)),
            y: min_fold32(stream_axis(s, 1)),
            z: min_fold32(stream_axis(s, 2)),
        },
        max: V3F32 {
            x: max_fold32(stream_axis(s, 0)),
            y: max_fold32(stream_axis(s, 1)),
            z: max_fold32(stream_axis(s, 2)),
        },
    }
}

/// Extending an axis prefix by one record extends its folds by one step.
proof fn lemma_axis_fold_step(s: Seq<u32>, axis: int, i: int)
    requires
        0 <= axis < 3,
        0 <= i,
        9 * i + 9 <= s.len(),
    ensures
        min_fold32(stream_axis(s, axis).take(i + 1)) == f32_min_bits(
            min_fold32(stream_axis(s, axis).take(i)),
            s[9 * i + axis],
        ),
        max_fold32(stream_axis(s, axis).take(i + 1)) == f32_max_bits(
            max_fold32(stream_axis(s, axis).take(i)),
            s[9 * i + axis],
        ),
{
    assert(stream_axis(s, axis).take(i + 1).drop_last() =~= stream_axis(s, axis).take(i));
    assert(stream_axis(s, axis).take(i + 1).last() == s[9 * i + axis]);
}

/// Calculates the bounding coordinates of a packed vertex stream, used for
/// the POSITION accessor's min/max metadata: componentwise IEEE min/max
/// over the record positions, folded from the infinity sentinels.
pub fn bounding_coords(stream: &Vec<u32>) -> (r: BoundingBox)
    requires
        stream@.len() % 9 == 0,
    ensures
        r == bbox_of_stream(stream@),
{
    let n = stream.len() / 9;
    let mut min_x: u32 = F32_POS_INF;
    let mut min_y: u32 = F32_POS_INF;
    let mut min_z: u32 = F32_POS_INF;
    let mut max_x: u32 = F32_NEG_INF;
    let mut max_y: u32 = F32_NEG_INF;
    let mut max_z: u32 = F32_NEG_INF;
    let mut i: usize = 0;
    while i < n
        invariant
            stream@.len() == 9 * n,
            stream@.len() <= usize::MAX,
            i <= n,
            min_x == min_fold32(stream_axis(stream@, 0).take(i as int)),
            min_y == min_fold32(stream_axis(stream@, 1).take(i as int)),
            min_z == min_fold32(stream_axis(stream@, 2).take(i as int)),
            max_x == max_fold32(stream_axis(stream@, 0).take(i as int)),
            max_y == max_fold32(stream_axis(stream@, 1).take(i as int)),
            max_z == max_fold32(stream_axis(stream@, 2).take(i as int)),
        decreases n - i,
    {
        proof {
            lemma_axis_fold_step(stream@, 0, i as int);
            lemma_axis_fold_step(stream@, 1, i as int);
            lemma_axis_fold_step(stream@, 2, i as int);
        }
        let px = stream[9 * i];
        let py = stream[9 * i + 1];
        let pz = stream[9 * i + 2];
        min_x = f32_min(min_x, px);
        min_y = f32_min(min_y, py);
        min_z = f32_min(min_z, pz);
        max_x = f32_max(max_x, px);
        max_y = f32_max(max_y, py);
        max_z = f32_max(max_z, pz);
        i += 1;
    }
    proof {
        assert(stream_axis(stream@, 0).take(n as int) =~= stream_axis(stream@, 0));
        assert(stream_axis(stream@, 1).take(n as int) =~= stream_axis(stream@, 1));
        assert(stream_axis(stream@, 2).take(n as int) =~= stream_axis(stream@, 2));
    }
    BoundingBox {
        min: V3F32 { x: min_x, y: min_y, z: min_z },
        max: V3F32 { x: max_x, y: max_y, z: max_z },
    }
}

} // verus!
