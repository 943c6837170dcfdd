//! Length-prefixed buffer protocol for the native call boundary.
//!
//! Two encodings cross the boundary:
//! - a `Frame`: a 4-byte big-endian *byte length* followed by that many raw
//!   bytes, used for opaque variable-length payloads (circuit, witness,
//!   proof, raw hash input);
//! - an element-vector frame: a 4-byte big-endian *element count* followed
//!   by a concatenation of fixed 32-byte elements, used for vectors of
//!   field elements. The two prefixes must never be confused: one counts
//!   bytes, the other counts elements.

use vstd::prelude::*;

use crate::BbError;

verus! {

/// The four bytes of `n` in big-endian order.
pub open spec fn be32_bytes(n: u32) -> Seq<u8> {
    seq![
        (n / 0x100_0000) as u8,
        ((n / 0x1_0000) % 0x100) as u8,
        ((n / 0x100) % 0x100) as u8,
        (n % 0x100) as u8,
    ]
}

/// The value of a 4-byte big-endian prefix.
pub open spec fn be32_value(s: Seq<u8>) -> int
    recommends
        s.len() == 4,
{
    s[0] * 0x100_0000 + s[1] * 0x1_0000 + s[2] * 0x100 + s[3]
}

/// Reading back the four big-endian bytes of `n` yields `n`.
pub proof fn lemma_be32_round_trip(n: u32)
    ensures
        be32_value(be32_bytes(n)) == n,
{
    assert((n / 0x100_0000) * 0x100_0000 + ((n / 0x1_0000) % 0x100) * 0x1_0000 + ((n / 0x100)
        % 0x100) * 0x100 + n % 0x100 == n) by (bit_vector);
}

/// Appends the 4-byte big-endian form of `n` to `buf`.
pub fn append_be32(buf: &mut Vec<u8>, n: u32)
    ensures
        final(buf)@ == old(buf)@ + be32_bytes(n),
{
    buf.push((n / 0x100_0000) as u8);
    buf.push(((n / 0x1_0000) % 0x100) as u8);
    buf.push(((n / 0x100) % 0x100) as u8);
    buf.push((n % 0x100) as u8);
    proof {
        assert(buf@ =~= old(buf)@ + be32_bytes(n));
    }
}

/// Reads the 4-byte big-endian value stored in `buf` at `off`.
pub fn read_be32_at(buf: &Vec<u8>, off: usize) -> (n: u32)
    requires
        off + 4 <= buf@.len(),
    ensures
        n == be32_value(buf@.subrange(off as int, off as int + 4)),
{
    let _len: usize = buf.len();
    let b0 = buf[off] as u32;
    let b1 = buf[off + 1] as u32;
    let b2 = buf[off + 2] as u32;
    let b3 = buf[off + 3] as u32;
    b0 * 0x100_0000 + b1 * 0x1_0000 + b2 * 0x100 + b3
}

/// The `Frame` image of `data`: a big-endian byte-length prefix, then the
/// bytes themselves.
pub open spec fn spec_frame(data: Seq<u8>) -> Seq<u8>
    recommends
        data.len() <= u32::MAX,
{
    be32_bytes(data.len() as u32) + data
}

/// A buffer holds a well-formed frame when it starts with a 4-byte prefix
/// and holds at least as many payload bytes as the prefix announces.
pub open spec fn frame_wf(buf: Seq<u8>) -> bool {
    buf.len() >= 4 && 4 + be32_value(buf.subrange(0, 4)) <= buf.len()
}

/// The payload of a well-formed frame: exactly the announced number of
/// bytes following the prefix. Bytes beyond them are ignored.
pub open spec fn spec_decode_frame(buf: Seq<u8>) -> Option<Seq<u8>> {
    if frame_wf(buf) {
        Some(buf.subrange(4, 4 + be32_value(buf.subrange(0, 4))))
    } else {
        None
    }
}

/// Encodes `data` as a `Frame`: 4-byte big-endian byte length, then the
/// bytes.
pub fn frame(data: &Vec<u8>) -> (out: Vec<u8>)
    requires
        data@.len() <= u32::MAX,
    ensures
        out@ == spec_frame(data@),
        out@.len() == 4 + data@.len(),
{
    let mut out: Vec<u8> = Vec::new();
    append_be32(&mut out, data.len() as u32);
    let mut tail = vstd::slice::slice_to_vec(data.as_slice());
    out.append(&mut tail);
    proof {
        assert(out@ =~= spec_frame(data@));
    }
    out
}

/// Decodes a `Frame`: reads the 4-byte big-endian byte length, then copies
/// out exactly that many payload bytes. A buffer too short for its own
/// prefix is rejected as [`BbError::MalformedResponse`].
pub fn decode_frame(buf: &Vec<u8>) -> (r: Result<Vec<u8>, BbError>)
    ensures
        match r {
            Ok(payload) => spec_decode_frame(buf@) == Some(payload@),
            Err(e) => spec_decode_frame(buf@) is None && e == BbError::MalformedResponse,
        },
{
    if buf.len() < 4 {
        return Err(BbError::MalformedResponse);
    }
    let len = read_be32_at(buf, 0) as usize;
    if buf.len() - 4 < len {
        return Err(BbError::MalformedResponse);
    }
    let payload = vstd::slice::slice_to_vec(vstd::slice::slice_subrange(buf.as_slice(), 4, 4 + len));
    Ok(payload)
}

/// The views of a vector of byte vectors, one sequence per element.
pub open spec fn views_of(elems: Seq<Vec<u8>>) -> Seq<Seq<u8>> {
    Seq::new(elems.len(), |i: int| elems[i]@)
}

/// Every element is exactly 32 bytes wide.
pub open spec fn elements_wf(xs: Seq<Seq<u8>>) -> bool {
    forall|i: int| 0 <= i < xs.len() ==> (#[trigger] xs[i]).len() == 32
}

/// The element-vector image of `xs`: a big-endian *element count* prefix,
/// then the 32-byte elements back to back.
pub open spec fn spec_frame_elements(xs: Seq<Seq<u8>>) -> Seq<u8>
    recommends
        xs.len() <= u32::MAX,
        elements_wf(xs),
{
    be32_bytes(xs.len() as u32) + xs.flatten()
}

/// A buffer holds a well-formed element vector when its count prefix is
/// followed by exactly 32 bytes per announced element.
pub open spec fn element_frame_wf(buf: Seq<u8>) -> bool {
    buf.len() >= 4 && buf.len() - 4 == 32 * be32_value(buf.subrange(0, 4))
}

/// The elements of a well-formed element vector: the i-th is the i-th
/// 32-byte slice of the payload.
pub open spec fn spec_decode_elements(buf: Seq<u8>) -> Option<Seq<Seq<u8>>> {
    if element_frame_wf(buf) {
        Some(
            Seq::new(
                be32_value(buf.subrange(0, 4)) as nat,
                |i: int| buf.subrange(4 + 32 * i, 4 + 32 * i + 32),
            ),
        )
    } else {
        None
    }
}

/// Decodes an element vector to its payload bytes: the announced 32-byte
/// elements back to back, prefix stripped. This is what decoding the
/// elements and concatenating them again yields; key material crosses the
/// boundary in this shape.
pub fn element_payload(buf: &Vec<u8>) -> (r: Result<Vec<u8>, BbError>)
    ensures
        match r {
            Ok(payload) => element_frame_wf(buf@) && payload@ == buf@.subrange(
                4,
                buf@.len() as int,
            ),
            Err(e) => !element_frame_wf(buf@) && e == BbError::MalformedResponse,
        },
{
    if buf.len() < 4 {
        return Err(BbError::MalformedResponse);
    }
    let count = read_be32_at(buf, 0) as usize;
    if count > (usize::MAX - 4) / 32 || buf.len() - 4 != 32 * count {
        return Err(BbError::MalformedResponse);
    }
    Ok(vstd::slice::slice_to_vec(vstd::slice::slice_subrange(buf.as_slice(), 4, buf.len())))
}

/// A concatenation of 32-byte elements is 32 bytes per element long.
proof fn lemma_flatten_uniform_len(xs: Seq<Seq<u8>>)
    requires
        elements_wf(xs),
    ensures
        xs.flatten().len() == 32 * xs.len(),
    decreases xs.len(),
{
    if xs.len() != 0 {
        assert(elements_wf(xs.drop_first()));
        lemma_flatten_uniform_len(xs.drop_first());
    }
}

/// The i-th 32-byte slice of a concatenation of 32-byte elements is the
/// i-th element.
proof fn lemma_flatten_uniform_index(xs: Seq<Seq<u8>>, i: int)
    requires
        elements_wf(xs),
        0 <= i < xs.len(),
    ensures
        xs.flatten().subrange(32 * i, 32 * i + 32) == xs[i],
    decreases i,
{
    lemma_flatten_uniform_len(xs);
    let tail = xs.drop_first();
    assert(elements_wf(tail));
    lemma_flatten_uniform_len(tail);
    assert(xs.flatten() == xs[0] + tail.flatten());
    if i == 0 {
        assert(xs.flatten().subrange(0, 32) =~= xs[0]);
    } else {
        lemma_flatten_uniform_index(tail, i - 1);
        assert(xs.flatten().subrange(32 * i, 32 * i + 32) =~= tail.flatten().subrange(
            32 * (i - 1),
            32 * (i - 1) + 32,
        ));
    }
}

/// Encodes a vector of 32-byte elements: a 4-byte big-endian element
/// count, then the elements back to back.
pub fn frame_elements(elems: &Vec<Vec<u8>>) -> (out: Vec<u8>)
    requires
        elems@.len() <= u32::MAX,
        elements_wf(views_of(elems@)),
    ensures
        out@ == spec_frame_elements(views_of(elems@)),
        out@.len() == 4 + 32 * elems@.len(),
{
    let ghost xs = views_of(elems@);
    let mut out: Vec<u8> = Vec::new();
    append_be32(&mut out, elems.len() as u32);
    proof {
        assert(xs.take(0).flatten() =~= Seq::<u8>::empty());
        assert(out@ =~= be32_bytes(elems@.len() as u32) + xs.take(0).flatten());
    }
    let mut i: usize = 0;
    while i < elems.len()
        invariant
            i <= elems@.len(),
            elems@.len() <= u32::MAX,
            xs == views_of(elems@),
            elements_wf(xs),
            out@ == be32_bytes(elems@.len() as u32) + xs.take(i as int).flatten(),
        decreases elems@.len() - i,
    {
        let mut chunk = vstd::slice::slice_to_vec(elems[i].as_slice());
        out.append(&mut chunk);
        proof {
            assert(xs.take(i + 1) =~= xs.take(i as int).push(xs[i as int]));
            xs.take(i as int).lemma_flatten_push(xs[i as int]);
            assert(out@ =~= be32_bytes(elems@.len() as u32) + xs.take(i + 1).flatten());
        }
        i += 1;
    }
    proof {
        assert(xs.take(xs.len() as int) =~= xs);
        lemma_flatten_uniform_len(xs);
    }
    out
}

/// Decodes an element vector: reads the 4-byte big-endian element count,
/// then splits the payload into 32-byte elements. A buffer whose payload
/// is not exactly 32 bytes per announced element is rejected as
/// [`BbError::MalformedResponse`].
pub fn decode_elements(buf: &Vec<u8>) -> (r: Result<Vec<Vec<u8>>, BbError>)
    ensures
        match r {
            Ok(elems) => spec_decode_elements(buf@) == Some(views_of(elems@)),
            Err(e) => spec_decode_elements(buf@) is None && e == BbError::MalformedResponse,
        },
{
    if buf.len() < 4 {
        return Err(BbError::MalformedResponse);
    }
    let count = read_be32_at(buf, 0) as usize;
    if count > (usize::MAX - 4) / 32 || buf.len() - 4 != 32 * count {
        return Err(BbError::MalformedResponse);
    }
    let ghost chunks = spec_decode_elements(buf@)->Some_0;
    let mut elems: Vec<Vec<u8>> = Vec::new();
    let mut i: usize = 0;
    while i < count
        invariant
            i <= count,
            4 + 32 * count <= usize::MAX,
            buf@.len() == 4 + 32 * count,
            count == be32_value(buf@.subrange(0, 4)),
            chunks == spec_decode_elements(buf@)->Some_0,
            element_frame_wf(buf@),
            chunks.len() == count,
            elems@.len() == i,
            views_of(elems@) == chunks.take(i as int),
        decreases count - i,
    {
        let chunk = vstd::slice::slice_to_vec(
            vstd::slice::slice_subrange(buf.as_slice(), 4 + 32 * i, 4 + 32 * i + 32),
        );
        elems.push(chunk);
        proof {
            assert(views_of(elems@) =~= chunks.take(i + 1));
        }
        i += 1;
    }
    proof {
        assert(chunks.take(count as int) =~= chunks);
        assert(views_of(elems@) =~= chunks);
    }
    Ok(elems)
}

/// Vector round trip: decoding a vector encoded with `frame_elements`
/// reproduces every element byte for byte, for any number of 32-byte
/// elements that fits behind the 4-byte count prefix, zero included.
pub proof fn lemma_elements_round_trip(xs: Seq<Seq<u8>>)
    requires
        xs.len() <= u32::MAX,
        elements_wf(xs),
    ensures
        spec_decode_elements(spec_frame_elements(xs)) == Some(xs),
{
    let buf = spec_frame_elements(xs);
    lemma_be32_round_trip(xs.len() as u32);
    assert(buf.subrange(0, 4) =~= be32_bytes(xs.len() as u32));
    lemma_flatten_uniform_len(xs);
    assert(element_frame_wf(buf));
    let decoded = spec_decode_elements(buf)->Some_0;
    assert forall|i: int| 0 <= i < xs.len() implies decoded[i] == xs[i] by {
        lemma_flatten_uniform_index(xs, i);
        assert(buf.subrange(4 + 32 * i, 4 + 32 * i + 32) =~= xs.flatten().subrange(
            32 * i,
            32 * i + 32,
        ));
    }
    assert(decoded =~= xs);
}

/// The views of a vector of element vectors.
pub open spec fn batch_views_of(batches: Seq<Vec<Vec<u8>>>) -> Seq<Seq<Seq<u8>>> {
    Seq::new(batches.len(), |i: int| views_of(batches[i]@))
}

/// Every batch is a well-formed element vector that fits behind a 4-byte
/// count prefix.
pub open spec fn batches_wf(bs: Seq<Seq<Seq<u8>>>) -> bool {
    forall|i: int| 0 <= i < bs.len() ==> elements_wf(#[trigger] bs[i]) && bs[i].len() <= u32::MAX
}

/// The image of a batch of element vectors: a big-endian batch count, then
/// the element-vector image of each batch back to back.
pub open spec fn spec_frame_element_batches(bs: Seq<Seq<Seq<u8>>>) -> Seq<u8>
    recommends
        bs.len() <= u32::MAX,
        batches_wf(bs),
{
    be32_bytes(bs.len() as u32) + bs.map_values(|xs: Seq<Seq<u8>>| spec_frame_elements(xs)).flatten()
}

/// Encodes a batch of element vectors: a 4-byte big-endian batch count,
/// then each batch as its own element vector. Batched hashing requests
/// cross the boundary in this form.
pub fn frame_element_batches(batches: &Vec<Vec<Vec<u8>>>) -> (out: Vec<u8>)
    requires
        batches@.len() <= u32::MAX,
        batches_wf(batch_views_of(batches@)),
    ensures
        out@ == spec_frame_element_batches(batch_views_of(batches@)),
{
    let ghost bs = batch_views_of(batches@);
    let ghost images = bs.map_values(|xs: Seq<Seq<u8>>| spec_frame_elements(xs));
    let mut out: Vec<u8> = Vec::new();
    append_be32(&mut out, batches.len() as u32);
    proof {
        assert(images.take(0).flatten() =~= Seq::<u8>::empty());
        assert(out@ =~= be32_bytes(batches@.len() as u32) + images.take(0).flatten());
    }
    let mut i: usize = 0;
    while i < batches.len()
        invariant
            i <= batches@.len(),
            batches@.len() <= u32::MAX,
            bs == batch_views_of(batches@),
            batches_wf(bs),
            images == bs.map_values(|xs: Seq<Seq<u8>>| spec_frame_elements(xs)),
            out@ == be32_bytes(batches@.len() as u32) + images.take(i as int).flatten(),
        decreases batches@.len() - i,
    {
        proof {
            assert(bs[i as int] == views_of(batches@[i as int]@));
            assert(elements_wf(bs[i as int]) && bs[i as int].len() <= u32::MAX);
        }
        let mut image = frame_elements(&batches[i]);
        out.append(&mut image);
        proof {
            assert(images.take(i + 1) =~= images.take(i as int).push(images[i as int]));
            images.take(i as int).lemma_flatten_push(images[i as int]);
            assert(out@ =~= be32_bytes(batches@.len() as u32) + images.take(i + 1).flatten());
        }
        i += 1;
    }
    proof {
        assert(images.take(images.len() as int) =~= images);
    }
    out
}

/// Splits a bare concatenation of 32-byte elements, as a fixed-size native
/// output area holds it, into its elements. No prefix is involved; a byte
/// count that is not a multiple of 32 is refused as
/// [`BbError::MalformedResponse`].
pub fn split_elements(bytes: &Vec<u8>) -> (r: Result<Vec<Vec<u8>>, BbError>)
    ensures
        match r {
            Ok(elems) => {
                &&& bytes@.len() % 32 == 0
                &&& views_of(elems@) == Seq::new(
                    bytes@.len() / 32,
                    |i: int| bytes@.subrange(32 * i, 32 * i + 32),
                )
            },
            Err(e) => bytes@.len() % 32 != 0 && e == BbError::MalformedResponse,
        },
{
    let len = bytes.len();
    if len % 32 != 0 {
        return Err(BbError::MalformedResponse);
    }
    let count = len / 32;
    let ghost chunks = Seq::new(bytes@.len() / 32, |i: int| bytes@.subrange(32 * i, 32 * i + 32));
    let mut elems: Vec<Vec<u8>> = Vec::new();
    let mut i: usize = 0;
    while i < count
        invariant
            i <= count,
            bytes@.len() == 32 * count,
            chunks == Seq::new(bytes@.len() / 32, |j: int| bytes@.subrange(32 * j, 32 * j + 32)),
            chunks.len() == count,
            32 * count <= usize::MAX,
            views_of(elems@) == chunks.take(i as int),
            elems@.len() == i,
        decreases count - i,
    {
        let chunk = vstd::slice::slice_to_vec(
            vstd::slice::slice_subrange(bytes.as_slice(), 32 * i, 32 * i + 32),
        );
        elems.push(chunk);
        proof {
            assert(views_of(elems@) =~= chunks.take(i + 1));
        }
        i += 1;
    }
    proof {
        assert(views_of(elems@) =~= chunks);
    }
    Ok(elems)
}

/// Round trip: decoding a value encoded with `frame` reproduces the
/// original bytes exactly, for every input that fits behind a 4-byte
/// length prefix, the empty one included.
pub proof fn lemma_frame_round_trip(data: Seq<u8>)
    requires
        data.len() <= u32::MAX,
    ensures
        spec_decode_frame(spec_frame(data)) == Some(data),
{
    let buf = spec_frame(data);
    lemma_be32_round_trip(data.len() as u32);
    assert(buf.subrange(0, 4) =~= be32_bytes(data.len() as u32));
    assert(buf.subrange(4, 4 + be32_value(buf.subrange(0, 4))) =~= data);
}

} // verus!
