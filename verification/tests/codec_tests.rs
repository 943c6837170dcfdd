use bb_bridge::BbError;
use bb_bridge::codec::decode_elements;
use bb_bridge::codec::decode_frame;
use bb_bridge::codec::frame;
use bb_bridge::codec::frame_element_batches;
use bb_bridge::codec::element_payload;
use bb_bridge::codec::frame_elements;
use bb_bridge::codec::split_elements;

fn element(fill: u8) -> Vec<u8> {
    vec![fill; 32]
}

#[test]
fn frame_prefix_counts_bytes() {
    let framed = frame(&vec![7, 9]);
    assert_eq!(framed, vec![0, 0, 0, 2, 7, 9]);

    let empty = frame(&Vec::new());
    assert_eq!(empty, vec![0, 0, 0, 0]);
}

#[test]
fn frame_prefix_is_big_endian() {
    let framed = frame(&vec![1; 0x0102]);
    assert_eq!(&framed[0..4], &[0, 0, 1, 2]);
    assert_eq!(framed.len(), 4 + 0x0102);
}

#[test]
fn frame_round_trip() {
    for len in [0usize, 1, 2, 31, 32, 33, 1000] {
        let data: Vec<u8> = (0..len).map(|i| (i % 251) as u8).collect();
        let decoded = decode_frame(&frame(&data)).unwrap();
        assert_eq!(decoded, data);
    }
}

#[test]
fn decode_frame_ignores_trailing_bytes() {
    let mut framed = frame(&vec![5, 6, 7]);
    framed.push(200);
    framed.push(201);
    assert_eq!(decode_frame(&framed).unwrap(), vec![5, 6, 7]);
}

#[test]
fn decode_frame_rejects_truncation() {
    assert_eq!(decode_frame(&Vec::new()), Err(BbError::MalformedResponse));
    assert_eq!(decode_frame(&vec![0, 0, 0]), Err(BbError::MalformedResponse));
    assert_eq!(
        decode_frame(&vec![0, 0, 0, 5, 1, 2]),
        Err(BbError::MalformedResponse)
    );
}

#[test]
fn element_prefix_counts_elements() {
    let framed = frame_elements(&vec![element(1), element(2)]);
    assert_eq!(framed.len(), 4 + 64);
    assert_eq!(&framed[0..4], &[0, 0, 0, 2]);
    assert_eq!(&framed[4..36], &[1; 32]);
    assert_eq!(&framed[36..68], &[2; 32]);
}

#[test]
fn element_round_trip() {
    for count in [0usize, 1, 2, 1000] {
        let elements: Vec<Vec<u8>> = (0..count).map(|i| element((i % 256) as u8)).collect();
        let decoded = decode_elements(&frame_elements(&elements)).unwrap();
        assert_eq!(decoded, elements);
    }
}

#[test]
fn decode_elements_rejects_wrong_payload_size() {
    // count says one element, payload holds 31 bytes
    let mut buf = vec![0, 0, 0, 1];
    buf.extend_from_slice(&[9; 31]);
    assert_eq!(decode_elements(&buf), Err(BbError::MalformedResponse));

    // count says one element, payload holds 33 bytes
    let mut buf = vec![0, 0, 0, 1];
    buf.extend_from_slice(&[9; 33]);
    assert_eq!(decode_elements(&buf), Err(BbError::MalformedResponse));

    assert_eq!(decode_elements(&vec![0, 0]), Err(BbError::MalformedResponse));
}

#[test]
fn element_payload_strips_only_the_prefix() {
    let framed = frame_elements(&vec![element(1), element(2)]);
    let payload = element_payload(&framed).unwrap();
    assert_eq!(payload.len(), 64);
    assert_eq!(&payload[..32], &[1; 32]);
    assert_eq!(&payload[32..], &[2; 32]);

    let mut short = framed.clone();
    short.pop();
    assert_eq!(element_payload(&short), Err(BbError::MalformedResponse));
}

#[test]
fn batch_encoding_nests_element_vectors() {
    let batches = vec![vec![element(1)], vec![element(2), element(3)]];
    let encoded = frame_element_batches(&batches);
    assert_eq!(&encoded[0..4], &[0, 0, 0, 2]);
    assert_eq!(&encoded[4..8], &[0, 0, 0, 1]);
    assert_eq!(&encoded[8..40], &[1; 32]);
    assert_eq!(&encoded[40..44], &[0, 0, 0, 2]);
    assert_eq!(&encoded[44..76], &[2; 32]);
    assert_eq!(&encoded[76..108], &[3; 32]);
    assert_eq!(encoded.len(), 108);

    assert_eq!(frame_element_batches(&Vec::new()), vec![0, 0, 0, 0]);
}

#[test]
fn split_elements_chunks_without_prefix() {
    let mut flat = Vec::new();
    flat.extend_from_slice(&[4; 32]);
    flat.extend_from_slice(&[5; 32]);
    assert_eq!(split_elements(&flat).unwrap(), vec![element(4), element(5)]);

    assert_eq!(split_elements(&Vec::new()).unwrap(), Vec::<Vec<u8>>::new());
    assert_eq!(split_elements(&vec![1; 33]), Err(BbError::MalformedResponse));
}
