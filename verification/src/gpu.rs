//! Adapter toward the rendering consumer, which expects four-component
//! padded records `{position: 4, normal: 4, color: 4}` rather than the
//! exporter's three-component packed layout.  The two layouts must never
//! be assumed compatible; this step widens each field with an explicit
//! `1.0` component.

use vstd::prelude::*;

verus! {

/// Bit pattern of the binary32 value one.
pub const F32_ONE: u32 = 0x3F80_0000;

/// One twelve-component padded record from one nine-component packed
/// record: each three-component field followed by `1.0`.
pub open spec fn gpu_rec(r: Seq<u32>) -> Seq<u32> {
    seq![
        r[0],
        r[1],
        r[2],
        F32_ONE,
        r[3],
        r[4],
        r[5],
        F32_ONE,
        r[6],
        r[7],
        r[8],
        F32_ONE,
    ]
}

/// The padded record stream of a packed record stream, record by record.
pub open spec fn gpu_stream(s: Seq<u32>) -> Seq<u32>
    decreases s.len(),
{
    if s.len() < 9 {
        Seq::empty()
    } else {
        gpu_rec(s.take(9)) + gpu_stream(s.skip(9))
    }
}

/// The padded stream holds twelve components per nine-component record.
pub proof fn lemma_gpu_stream_len(s: Seq<u32>)
    requires
        s.len() % 9 == 0,
    ensures
        gpu_stream(s).len() == 12 * (s.len() / 9),
    decreases s.len(),
{
    if s.len() >= 9 {
        lemma_gpu_stream_len(s.skip(9));
    }
}

/// Widens a packed record stream (position, normal, color order) into the
/// four-component padded records the rendering consumer expects, appending
/// a `1.0` component after each three-component field.
pub fn gpu_vertex_components(raw: &Vec<u32>) -> (r: Vec<u32>)
    requires
        raw@.len() % 9 == 0,
        12 * (raw@.len() / 9) <= usize::MAX,
    ensures
        r@ == gpu_stream(raw@),
        r@.len() == 12 * (raw@.len() / 9),
{
    let n = raw.len() / 9;
    let mut out: Vec<u32> = Vec::new();
    proof {
        assert(raw@.skip(0) =~= raw@);
        assert(out@ + gpu_stream(raw@) =~= gpu_stream(raw@));
    }
    let mut i: usize = 0;
    while i < n
        invariant
            raw@.len() == 9 * n,
            raw@.len() <= usize::MAX,
            i <= n,
            gpu_stream(raw@) == out@ + gpu_stream(raw@.skip(9 * i as int)),
            out@.len() == 12 * i,
        decreases n - i,
    {
        let base = 9 * i;
        let ghost out0 = out@;
        let ghost rest = raw@.skip(9 * i as int);
        proof {
            assert(rest.len() == 9 * (n - i));
            assert(gpu_stream(rest) == gpu_rec(rest.take(9)) + gpu_stream(rest.skip(9)));
            assert(rest.skip(9) =~= raw@.skip(9 * (i + 1) as int));
        }
        out.push(raw[base]);
        out.push(raw[base + 1]);
        out.push(raw[base + 2]);
        out.push(F32_ONE);
        out.push(raw[base + 3]);
        out.push(raw[base + 4]);
        out.push(raw[base + 5]);
        out.push(F32_ONE);
        out.push(raw[base + 6]);
        out.push(raw[base + 7]);
        out.push(raw[base + 8]);
        out.push(F32_ONE);
        proof {
            assert(rest.take(9)[0] == raw@[9 * i as int]);
            assert(rest.take(9)[1] == raw@[9 * i + 1]);
            assert(rest.take(9)[2] == raw@[9 * i + 2]);
            assert(rest.take(9)[3] == raw@[9 * i + 3]);
            assert(rest.take(9)[4] == raw@[9 * i + 4]);
            assert(rest.take(9)[5] == raw@[9 * i + 5]);
            assert(rest.take(9)[6] == raw@[9 * i + 6]);
            assert(rest.take(9)[7] == raw@[9 * i + 7]);
            assert(rest.take(9)[8] == raw@[9 * i + 8]);
            assert(out@ =~= out0 + gpu_rec(rest.take(9)));
            assert(out0 + gpu_rec(rest.take(9)) + gpu_stream(rest.skip(9)) =~= out0 + (gpu_rec(
                rest.take(9),
            ) + gpu_stream(rest.skip(9))));
        }
        i += 1;
    }
    proof {
        assert(raw@.skip(9 * n as int) =~= Seq::<u32>::empty());
        assert(gpu_stream(raw@) =~= out@);
    }
    out
}

} // verus!
