use bb_bridge::BbError;
use bb_bridge::prove::ProofVariant;
use bb_bridge::prove::decompose_response;
use bb_bridge::prove::encode_prove_request;

/// A double-framed response: outer length prefix, inner length prefix,
/// then the inner payload, then whatever trailing bytes the wire held.
fn double_framed(payload: &[u8], trailing: &[u8]) -> Vec<u8> {
    let mut buf = Vec::new();
    let outer = (4 + payload.len() + trailing.len()) as u32;
    buf.extend_from_slice(&outer.to_be_bytes());
    buf.extend_from_slice(&(payload.len() as u32).to_be_bytes());
    buf.extend_from_slice(payload);
    buf.extend_from_slice(trailing);
    buf
}

#[test]
fn decomposition_splits_public_inputs_and_proof() {
    // inner payload of 96 bytes, two public inputs of 32 bytes each
    let payload: Vec<u8> = (0..96).map(|i| i as u8).collect();
    let response = double_framed(&payload, &[]);
    let resp = decompose_response(&response, 2).unwrap();
    assert_eq!(resp.public_inputs.len(), 64);
    assert_eq!(resp.raw_proof.len(), 96 - 64);
    assert_eq!(resp.public_inputs, payload[..64].to_vec());
    assert_eq!(resp.raw_proof, payload[64..].to_vec());
    assert_eq!(resp.complete_data, response);
}

#[test]
fn decomposition_keeps_the_wire_form_without_trailing_bytes() {
    let payload = [9u8; 32];
    let response = double_framed(&payload, &[77, 78]);
    let resp = decompose_response(&response, 1).unwrap();
    assert_eq!(resp.public_inputs, payload.to_vec());
    assert!(resp.raw_proof.is_empty());
    assert_eq!(resp.complete_data, response[..40].to_vec());
}

#[test]
fn short_payload_fails_whole() {
    // inner payload of 63 bytes cannot cover two 32-byte public inputs
    let payload = [1u8; 63];
    let response = double_framed(&payload, &[]);
    assert_eq!(decompose_response(&response, 2), Err(BbError::MalformedResponse));
}

#[test]
fn truncated_response_fails_whole() {
    // the inner prefix announces more payload than the buffer holds
    let payload = [1u8; 32];
    let mut response = double_framed(&payload, &[]);
    response.truncate(20);
    assert_eq!(decompose_response(&response, 0), Err(BbError::MalformedResponse));

    // too short even for the two prefixes
    assert_eq!(decompose_response(&vec![0; 7], 0), Err(BbError::MalformedResponse));
}

#[test]
fn request_frames_circuit_and_witness() {
    let (circuit, witness) = encode_prove_request(&vec![1, 2, 3], &vec![4, 5]);
    assert_eq!(circuit, vec![0, 0, 0, 3, 1, 2, 3]);
    assert_eq!(witness, vec![0, 0, 0, 2, 4, 5]);
}

#[test]
fn variant_selection_follows_the_flag() {
    assert_eq!(ProofVariant::from_keccak_flag(false), ProofVariant::Standard);
    assert_eq!(ProofVariant::from_keccak_flag(true), ProofVariant::KeccakFriendly);
}
