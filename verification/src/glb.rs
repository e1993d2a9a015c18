//! Byte-exact construction of a glTF-2.0 Binary (GLB) container.
//!
//! The JSON chunk describes one buffer, one buffer view of stride 36,
//! three accessors (POSITION, COLOR_0, NORMAL) sharing that view, one
//! mesh/primitive in TRIANGLES mode without indices, one node and one
//! scene.  The JSON text itself is padded with trailing ASCII spaces to a
//! multiple of four bytes; the binary payload — the little-endian record
//! words — is a multiple of four by construction.  The total length is
//! limited to the unsigned 32-bit range.

use vstd::prelude::*;
use vstd::string::StringSliceAdditionalSpecFns;
use crate::ExportError;
use crate::arith::{f32_dec_text, f32_text};
use crate::bounds::BoundingBox;

verus! {

/// The padding that brings `n` up to the next multiple of four.
pub open spec fn pad4(n: nat) -> nat {
    ((4 - n % 4) % 4) as nat
}

/// `n` rounded up to the next multiple of four.
pub open spec fn align4(n: nat) -> nat {
    n + pad4(n)
}

/// Rounds a byte count up to the next multiple of four, as used for chunk
/// alignment.
pub fn align_to_multiple_of_four(n: &mut usize)
    requires
        *old(n) + 3 <= usize::MAX,
    ensures
        *final(n) == align4(*old(n) as nat),
        *final(n) % 4 == 0,
{
    let r = *n % 4;
    *n = *n + ((4 - r) % 4);
}

/// `count` copies of one filler byte.
pub open spec fn filler(count: nat, b: u8) -> Seq<u8> {
    Seq::new(count, |i: int| b)
}

/// Appends filler bytes until the length is a multiple of four.
fn pad_to_four(out: &mut Vec<u8>, b: u8)
    ensures
        final(out)@ == old(out)@ + filler(pad4(old(out)@.len()), b),
        final(out)@.len() == align4(old(out)@.len()),
        final(out)@.len() % 4 == 0,
{
    let pad = (4 - (out.len() % 4)) % 4;
    let mut k: usize = 0;
    while k < pad
        invariant
            k <= pad,
            pad == pad4(old(out)@.len()),
            out@ == old(out)@ + filler(k as nat, b),
        decreases pad - k,
    {
        out.push(b);
        proof {
            assert(out@ =~= old(out)@ + filler((k + 1) as nat, b));
        }
        k += 1;
    }
    proof {
        assert(out@ =~= old(out)@ + filler(pad4(old(out)@.len()), b));
    }
}

/// The decimal digits of `n`, most significant first.
pub open spec fn dec_spec(n: nat) -> Seq<u8>
    decreases n,
{
    if n < 10 {
        seq![(48 + n) as u8]
    } else {
        dec_spec(n / 10).push((48 + n % 10) as u8)
    }
}

/// Renders an unsigned number in decimal.
fn u64_dec(n: u64) -> (r: Vec<u8>)
    ensures
        r@ == dec_spec(n as nat),
    decreases n,
{
    if n < 10 {
        let mut v: Vec<u8> = Vec::new();
        v.push(48 + n as u8);
        proof {
            assert(v@ =~= dec_spec(n as nat));
        }
        v
    } else {
        let mut v = u64_dec(n / 10);
        v.push(48 + (n % 10) as u8);
        v
    }
}

/// Appends the bytes of an ASCII literal.
fn push_str_bytes(out: &mut Vec<u8>, s: &str)
    ensures
        final(out)@ == old(out)@ + s.spec_bytes(),
{
    let b: &[u8] = s.as_bytes();
    let n = b.len();
    let mut i: usize = 0;
    while i < n
        invariant
            n == b@.len(),
            i <= n,
            b@ == s.spec_bytes(),
            out@ == old(out)@ + b@.take(i as int),
        decreases n - i,
    {
        out.push(b[i]);
        proof {
            assert(out@ =~= old(out)@ + b@.take(i + 1));
        }
        i += 1;
    }
    proof {
        assert(b@.take(n as int) =~= b@);
    }
}

/// Appends a whole byte vector.
fn push_all(out: &mut Vec<u8>, src: &Vec<u8>)
    ensures
        final(out)@ == old(out)@ + src@,
{
    let n = src.len();
    let mut i: usize = 0;
    while i < n
        invariant
            n == src@.len(),
            i <= n,
            out@ == old(out)@ + src@.take(i as int),
        decreases n - i,
    {
        out.push(src[i]);
        proof {
            assert(out@ =~= old(out)@ + src@.take(i + 1));
        }
        i += 1;
    }
    proof {
        assert(src@.take(n as int) =~= src@);
    }
}

/// The four little-endian bytes of a 32-bit word.
pub open spec fn le32(x: u32) -> Seq<u8> {
    seq![
        (x & 0xFF) as u8,
        ((x >> 8) & 0xFF) as u8,
        ((x >> 16) & 0xFF) as u8,
        ((x >> 24) & 0xFF) as u8,
    ]
}

/// Appends the four little-endian bytes of a 32-bit word.
fn push_le32(out: &mut Vec<u8>, x: u32)
    ensures
        final(out)@ == old(out)@ + le32(x),
{
    assert(x & 0xFF < 256) by (bit_vector);
    assert((x >> 8) & 0xFF < 256) by (bit_vector);
    assert((x >> 16) & 0xFF < 256) by (bit_vector);
    assert((x >> 24) & 0xFF < 256) by (bit_vector);
    out.push((x & 0xFF) as u8);
    out.push(((x >> 8) & 0xFF) as u8);
    out.push(((x >> 16) & 0xFF) as u8);
    out.push(((x >> 24) & 0xFF) as u8);
    proof {
        assert(out@ =~= old(out)@ + le32(x));
    }
}

/// The little-endian bytes of a word sequence, in order.
pub open spec fn le_bytes_of(s: Seq<u32>) -> Seq<u8>
    decreases s.len(),
{
    if s.len() == 0 {
        Seq::empty()
    } else {
        le_bytes_of(s.drop_last()) + le32(s.last())
    }
}

/// The byte rendering holds four bytes per word.
pub proof fn lemma_le_bytes_len(s: Seq<u32>)
    ensures
        le_bytes_of(s).len() == 4 * s.len(),
    decreases s.len(),
{
    if s.len() > 0 {
        lemma_le_bytes_len(s.drop_last());
    }
}

/// Renders the packed record stream as its binary payload: the byte-exact
/// little-endian concatenation of all record words, a multiple of four
/// bytes long, so chunk padding never has to add anything.
pub fn to_padded_byte_vector(data: &Vec<u32>) -> (r: Vec<u8>)
    ensures
        r@ == le_bytes_of(data@),
        r@.len() == 4 * data@.len(),
        r@.len() % 4 == 0,
{
    let mut out: Vec<u8> = Vec::new();
    let n = data.len();
    let mut i: usize = 0;
    while i < n
        invariant
            n == data@.len(),
            i <= n,
            out@ == le_bytes_of(data@.take(i as int)),
        decreases n - i,
    {
        proof {
            assert(data@.take(i + 1).drop_last() =~= data@.take(i as int));
            assert(data@.take(i + 1).last() == data@[i as int]);
        }
        push_le32(&mut out, data[i]);
        i += 1;
    }
    proof {
        assert(data@.take(n as int) =~= data@);
        lemma_le_bytes_len(data@);
    }
    out
}

/// The JSON scene description, as exact bytes: three accessors over one
/// interleaved buffer view (POSITION at offset 0 with min/max, COLOR_0 at
/// 12, NORMAL at 24), one buffer, one mesh/primitive in TRIANGLES mode
/// without indices, one node, one scene.
pub open spec fn json_doc(count: nat, blen: nat, bb: BoundingBox) -> Seq<u8> {
    "{\"accessors\":[{\"bufferView\":0,\"byteOffset\":0,\"componentType\":5126,\"count\":".spec_bytes()
        + dec_spec(count) + ",\"type\":\"VEC3\",\"min\":[".spec_bytes() + f32_dec_text(bb.min.x)
        + ",".spec_bytes() + f32_dec_text(bb.min.y) + ",".spec_bytes() + f32_dec_text(bb.min.z)
        + "],\"max\":[".spec_bytes() + f32_dec_text(bb.max.x) + ",".spec_bytes() + f32_dec_text(
        bb.max.y,
    ) + ",".spec_bytes() + f32_dec_text(bb.max.z)
        + "]},{\"bufferView\":0,\"byteOffset\":12,\"componentType\":5126,\"count\":".spec_bytes()
        + dec_spec(count)
        + ",\"type\":\"VEC3\"},{\"bufferView\":0,\"byteOffset\":24,\"componentType\":5126,\"count\":".spec_bytes()
        + dec_spec(count)
        + ",\"type\":\"VEC3\"}],\"asset\":{\"version\":\"2.0\"},\"buffers\":[{\"byteLength\":".spec_bytes()
        + dec_spec(blen) + "}],\"bufferViews\":[{\"buffer\":0,\"byteLength\":".spec_bytes()
        + dec_spec(blen)
        + ",\"byteStride\":36,\"target\":34962}],\"meshes\":[{\"primitives\":[{\"attributes\":{\"COLOR_0\":1,\"NORMAL\":2,\"POSITION\":0},\"mode\":4}]}],\"nodes\":[{\"mesh\":0}],\"scene\":0,\"scenes\":[{\"nodes\":[0]}]}".spec_bytes()
}

/// Builds the JSON scene description for `count` vertex records, a binary
/// payload of `blen` bytes, and the given position bounds.
fn build_json(count: u64, blen: u64, bb: &BoundingBox) -> (r: Vec<u8>)
    ensures
        r@ == json_doc(count as nat, blen as nat, *bb),
{
    let count_txt = u64_dec(count);
    let blen_txt = u64_dec(blen);
    let min_x = f32_text(bb.min.x);
    let min_y = f32_text(bb.min.y);
    let min_z = f32_text(bb.min.z);
    let max_x = f32_text(bb.max.x);
    let max_y = f32_text(bb.max.y);
    let max_z = f32_text(bb.max.z);
    let mut out: Vec<u8> = Vec::new();
    push_str_bytes(
        &mut out,
        "{\"accessors\":[{\"bufferView\":0,\"byteOffset\":0,\"componentType\":5126,\"count\":",
    );
    push_all(&mut out, &count_txt);
    push_str_bytes(&mut out, ",\"type\":\"VEC3\",\"min\":[");
    push_all(&mut out, &min_x);
    push_str_bytes(&mut out, ",");
    push_all(&mut out, &min_y);
    push_str_bytes(&mut out, ",");
    push_all(&mut out, &min_z);
    push_str_bytes(&mut out, "],\"max\":[");
    push_all(&mut out, &max_x);
    push_str_bytes(&mut out, ",");
    push_all(&mut out, &max_y);
    push_str_bytes(&mut out, ",");
    push_all(&mut out, &max_z);
    push_str_bytes(
        &mut out,
        "]},{\"bufferView\":0,\"byteOffset\":12,\"componentType\":5126,\"count\":",
    );
    push_all(&mut out, &count_txt);
    push_str_bytes(
        &mut out,
        ",\"type\":\"VEC3\"},{\"bufferView\":0,\"byteOffset\":24,\"componentType\":5126,\"count\":",
    );
    push_all(&mut out, &count_txt);
    push_str_bytes(
        &mut out,
        ",\"type\":\"VEC3\"}],\"asset\":{\"version\":\"2.0\"},\"buffers\":[{\"byteLength\":",
    );
    push_all(&mut out, &blen_txt);
    push_str_bytes(&mut out, "}],\"bufferViews\":[{\"buffer\":0,\"byteLength\":");
    push_all(&mut out, &blen_txt);
    push_str_bytes(
        &mut out,
        ",\"byteStride\":36,\"target\":34962}],\"meshes\":[{\"primitives\":[{\"attributes\":{\"COLOR_0\":1,\"NORMAL\":2,\"POSITION\":0},\"mode\":4}]}],\"nodes\":[{\"mesh\":0}],\"scene\":0,\"scenes\":[{\"nodes\":[0]}]}",
    );
    out
}

/// The JSON chunk bytes: the document padded with ASCII spaces to a
/// multiple of four.
pub open spec fn json_chunk(count: nat, blen: nat, bb: BoundingBox) -> Seq<u8> {
    let j = json_doc(count, blen, bb);
    j + filler(pad4(j.len()), 32u8)
}

/// The magic tag `glTF` that opens the container.
pub open spec fn magic_tag() -> Seq<u8> {
    seq![0x67u8, 0x6Cu8, 0x54u8, 0x46u8]
}

/// The chunk-type tag `JSON`.
pub open spec fn json_tag() -> Seq<u8> {
    seq![0x4Au8, 0x53u8, 0x4Fu8, 0x4Eu8]
}

/// The chunk-type tag `BIN` followed by a NUL byte.
pub open spec fn bin_tag() -> Seq<u8> {
    seq![0x42u8, 0x49u8, 0x4Eu8, 0x00u8]
}

/// Appends four single bytes.
fn push_four(out: &mut Vec<u8>, b0: u8, b1: u8, b2: u8, b3: u8)
    ensures
        final(out)@ == old(out)@ + seq![b0, b1, b2, b3],
{
    out.push(b0);
    out.push(b1);
    out.push(b2);
    out.push(b3);
    proof {
        assert(out@ =~= old(out)@ + seq![b0, b1, b2, b3]);
    }
}

/// A whole GLB container: the twelve-byte header (magic, version 2, total
/// length), the JSON chunk with its eight-byte header, then the binary
/// chunk with its eight-byte header.
pub open spec fn glb_bytes(total: u32, jp: Seq<u8>, bp: Seq<u8>) -> Seq<u8> {
    magic_tag() + le32(2) + le32(total) + le32(jp.len() as u32) + json_tag() + jp + le32(
        bp.len() as u32,
    ) + bin_tag() + bp
}

/// The total length of the GLB built from a record stream: header plus
/// two chunk headers plus the padded chunks.
pub open spec fn glb_total_of(s: Seq<u32>, bb: BoundingBox) -> nat {
    28 + json_chunk(s.len() / 9, 4 * s.len(), bb).len() + 4 * s.len()
}

/// The GLB container built from a record stream and its position bounds.
pub open spec fn glb_of_stream(s: Seq<u32>, bb: BoundingBox) -> Seq<u8> {
    let jp = json_chunk(s.len() / 9, 4 * s.len(), bb);
    let bp = le_bytes_of(s);
    glb_bytes((28 + jp.len() + bp.len()) as u32, jp, bp)
}

/// Builds the GLB container for a packed record stream (position, color,
/// normal order) and its position bounds.  Fails with `SizeLimit` — before
/// any bytes are returned — exactly when the total length would exceed the
/// unsigned 32-bit range; otherwise the result is the byte-exact container,
/// both chunks multiples of four bytes long, and the header's total length
/// is `12 + 8 + jsonChunkLength + 8 + binChunkLength`.
pub fn build_glb(stream: &Vec<u32>, bb: &BoundingBox) -> (r: Result<Vec<u8>, ExportError>)
    requires
        stream@.len() % 9 == 0,
    ensures
        (r is Err) <==> glb_total_of(stream@, *bb) > u32::MAX,
        r is Err ==> r == Err::<Vec<u8>, ExportError>(ExportError::SizeLimit),
        r matches Ok(g) ==> {
            &&& g@ == glb_of_stream(stream@, *bb)
            &&& g@.len() == glb_total_of(stream@, *bb)
            &&& g@.len() == 12 + 8 + json_chunk(stream@.len() / 9, 4 * stream@.len(), *bb).len()
                + 8 + le_bytes_of(stream@).len()
            &&& json_chunk(stream@.len() / 9, 4 * stream@.len(), *bb).len() % 4 == 0
            &&& le_bytes_of(stream@).len() % 4 == 0
        },
{
    let n_words = stream.len();
    if n_words as u64 > (0xFFFF_FFFFu64 - 28) / 4 {
        proof {
            lemma_le_bytes_len(stream@);
        }
        return Err(ExportError::SizeLimit);
    }
    let count: u64 = (n_words as u64) / 9;
    let blen: u64 = 4 * (n_words as u64);
    let mut jp = build_json(count, blen, bb);
    pad_to_four(&mut jp, 32u8);
    if jp.len() as u64 > 0xFFFF_FFFFu64 - 28 - blen {
        return Err(ExportError::SizeLimit);
    }
    let total: u64 = 28 + jp.len() as u64 + blen;
    let bp = to_padded_byte_vector(stream);
    let mut out: Vec<u8> = Vec::new();
    push_four(&mut out, 0x67, 0x6C, 0x54, 0x46);
    push_le32(&mut out, 2);
    push_le32(&mut out, total as u32);
    push_le32(&mut out, jp.len() as u32);
    push_four(&mut out, 0x4A, 0x53, 0x4F, 0x4E);
    push_all(&mut out, &jp);
    push_le32(&mut out, bp.len() as u32);
    push_four(&mut out, 0x42, 0x49, 0x4E, 0x00);
    push_all(&mut out, &bp);
    proof {
        assert(seq![0x67u8, 0x6Cu8, 0x54u8, 0x46u8] =~= magic_tag());
        assert(seq![0x4Au8, 0x53u8, 0x4Fu8, 0x4Eu8] =~= json_tag());
        assert(seq![0x42u8, 0x49u8, 0x4Eu8, 0x00u8] =~= bin_tag());
    }
    Ok(out)
}

} // verus!
