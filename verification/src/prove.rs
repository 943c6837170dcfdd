//! Proof orchestration: encoding the proving request and decomposing the
//! engine's response.
//!
//! A proving request frames the circuit and witness buffers and hands them
//! to the native call the variant selects; the call returns one owned,
//! double-framed buffer. The surrounding application copies that buffer out
//! of foreign memory and releases it; this module owns the decomposition of
//! the copied bytes into public inputs and raw proof material.

use vstd::prelude::*;

use crate::BbError;
use crate::codec::be32_value;
use crate::codec::spec_frame;
use crate::codec::frame;

verus! {

/// Which native proving call family a request selects: the standard
/// UltraHonk prover, or the keccak-friendly one suited to on-chain
/// verification.
#[derive(Clone, Copy, Debug, PartialEq, Eq, Structural)]
pub enum ProofVariant {
    Standard,
    KeccakFriendly,
}

impl ProofVariant {
    /// The variant a boolean keccak selector picks.
    pub fn from_keccak_flag(is_keccak: bool) -> (v: ProofVariant)
        ensures
            v == if is_keccak {
                ProofVariant::KeccakFriendly
            } else {
                ProofVariant::Standard
            },
    {
        if is_keccak {
            ProofVariant::KeccakFriendly
        } else {
            ProofVariant::Standard
        }
    }
}

/// A decomposed proving response.
///
/// `complete_data` is the undecoded response as returned by the engine,
/// both prefixes included; `public_inputs` followed by `raw_proof` is the
/// inner payload of `complete_data` with the prefixes stripped.
#[derive(Debug, PartialEq)]
pub struct ProofResponse {
    pub public_inputs: Vec<u8>,
    pub raw_proof: Vec<u8>,
    pub complete_data: Vec<u8>,
}

/// The inner payload length of a double-framed response: the big-endian
/// value of bytes 4 to 8.
pub open spec fn inner_len(buf: Seq<u8>) -> int
    recommends
        buf.len() >= 8,
{
    be32_value(buf.subrange(4, 8))
}

/// A double-framed response can be decomposed for `k` public inputs when
/// it holds both 4-byte prefixes, the inner payload it announces, and at
/// least `32 * k` payload bytes for the public inputs.
pub open spec fn response_wf(buf: Seq<u8>, k: nat) -> bool {
    &&& buf.len() >= 8
    &&& 8 + inner_len(buf) <= buf.len()
    &&& 32 * k <= inner_len(buf)
}

/// Encodes a proving request: the circuit and witness buffers, each as a
/// `Frame`.
pub fn encode_prove_request(circuit: &Vec<u8>, witness: &Vec<u8>) -> (r: (Vec<u8>, Vec<u8>))
    requires
        circuit@.len() <= u32::MAX,
        witness@.len() <= u32::MAX,
    ensures
        r.0@ == spec_frame(circuit@),
        r.1@ == spec_frame(witness@),
{
    (frame(circuit), frame(witness))
}

/// Decomposes a double-framed proving response for `pub_inputs_amount`
/// public inputs: skips the outer 4-byte prefix, reads the inner prefix
/// for the true payload length, slices exactly that many payload bytes,
/// and splits them into `32 * pub_inputs_amount` bytes of public inputs
/// followed by the raw proof. The undecoded wire form, prefixes included,
/// is kept as `complete_data`.
///
/// A response too short for its own prefixes or its announced payload, or
/// whose payload cannot cover the public inputs, is refused whole as
/// [`BbError::MalformedResponse`]: no truncated or partially populated
/// result is ever returned.
pub fn decompose_response(buf: &Vec<u8>, pub_inputs_amount: usize) -> (r: Result<
    ProofResponse,
    BbError,
>)
    ensures
        match r {
            Ok(resp) => {
                &&& response_wf(buf@, pub_inputs_amount as nat)
                &&& resp.public_inputs@ == buf@.subrange(8, 8 + 32 * pub_inputs_amount)
                &&& resp.raw_proof@ == buf@.subrange(
                    8 + 32 * pub_inputs_amount,
                    8 + inner_len(buf@),
                )
                &&& resp.complete_data@ == buf@.subrange(0, 8 + inner_len(buf@))
            },
            Err(e) => {
                &&& !response_wf(buf@, pub_inputs_amount as nat)
                &&& e == BbError::MalformedResponse
            },
        },
{
    let len = buf.len();
    if len < 8 {
        return Err(BbError::MalformedResponse);
    }
    let inner = read_inner_len(buf);
    if len - 8 < inner {
        return Err(BbError::MalformedResponse);
    }
    if pub_inputs_amount > inner / 32 {
        proof {
            assert(32 * (pub_inputs_amount as nat) > inner_len(buf@));
        }
        return Err(BbError::MalformedResponse);
    }
    let pub_len = 32 * pub_inputs_amount;
    let public_inputs = vstd::slice::slice_to_vec(
        vstd::slice::slice_subrange(buf.as_slice(), 8, 8 + pub_len),
    );
    let raw_proof = vstd::slice::slice_to_vec(
        vstd::slice::slice_subrange(buf.as_slice(), 8 + pub_len, 8 + inner),
    );
    let complete_data = vstd::slice::slice_to_vec(
        vstd::slice::slice_subrange(buf.as_slice(), 0, 8 + inner),
    );
    Ok(ProofResponse { public_inputs, raw_proof, complete_data })
}

/// Reads the inner payload length announced by a double-framed response.
pub fn read_inner_len(buf: &Vec<u8>) -> (inner: usize)
    requires
        buf@.len() >= 8,
    ensures
        inner == inner_len(buf@),
{
    crate::codec::read_be32_at(buf, 4) as usize
}

/// The split is a partition: the public inputs followed by the raw proof
/// are exactly the inner payload of the response, prefixes stripped.
pub proof fn lemma_payload_split(buf: Seq<u8>, k: nat)
    requires
        response_wf(buf, k),
    ensures
        buf.subrange(8, 8 + 32 * (k as int)) + buf.subrange(8 + 32 * (k as int), 8 + inner_len(buf))
            == buf.subrange(8, 8 + inner_len(buf)),
{
    assert(buf.subrange(8, 8 + 32 * (k as int)) + buf.subrange(
        8 + 32 * (k as int),
        8 + inner_len(buf),
    ) =~= buf.subrange(8, 8 + inner_len(buf)));
}

} // verus!
