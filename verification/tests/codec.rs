use layerzero_dvn::bytes::{bytes_eq, push_u32_be, push_u64_be, read_u32_be};
use layerzero_dvn::{
    calculate_message_id, calculate_message_id_from_params, default_data_dir, encode_packet_header,
    verify_packet_params, AssignmentParams, Mismatch, Packet, PipelineError, StoredPacket,
};

const HELLO_DIGEST: [u8; 32] = [
    0x1c, 0x8a, 0xff, 0x95, 0x06, 0x85, 0xc2, 0xed, 0x4b, 0xc3, 0x17, 0x4f, 0x34, 0x72, 0x28, 0x7b,
    0x56, 0xd9, 0x51, 0x7b, 0x9c, 0x94, 0x81, 0x27, 0x31, 0x9a, 0x09, 0xa7, 0xa3, 0x6d, 0xea, 0xc8,
];

fn hello_packet() -> Packet {
    Packet {
        nonce: 1,
        source_chain_id: 1,
        sender: [0x11; 32],
        destination_chain_id: 2,
        receiver: [0x22; 32],
        message: b"hello".to_vec(),
    }
}

fn hello_params() -> AssignmentParams {
    AssignmentParams {
        nonce: 1,
        source_chain_id: 1,
        sender: [0x11; 32],
        destination_chain_id: 2,
        receiver: [0x22; 32],
        payload_hash: HELLO_DIGEST,
    }
}

fn hello_header() -> Vec<u8> {
    let mut expected = vec![1u8];
    expected.extend_from_slice(&[0, 0, 0, 0, 0, 0, 0, 1]);
    expected.extend_from_slice(&[0, 0, 0, 1]);
    expected.extend_from_slice(&[0x11; 32]);
    expected.extend_from_slice(&[0, 0, 0, 2]);
    expected.extend_from_slice(&[0x22; 32]);
    expected
}

#[test]
fn header_is_81_bytes_in_field_order() {
    let header = encode_packet_header(&hello_packet());
    assert_eq!(header.len(), 81);
    assert_eq!(header, hello_header());
}

#[test]
fn header_integers_are_big_endian() {
    let packet = Packet {
        nonce: 0x0102030405060708,
        source_chain_id: 0x0a0b0c0d,
        sender: [0; 32],
        destination_chain_id: 0xfffefdfc,
        receiver: [0xff; 32],
        message: Vec::new(),
    };
    let header = encode_packet_header(&packet);
    assert_eq!(header[0], 1);
    assert_eq!(&header[1..9], &[1, 2, 3, 4, 5, 6, 7, 8]);
    assert_eq!(&header[9..13], &[0x0a, 0x0b, 0x0c, 0x0d]);
    assert_eq!(&header[13..45], &[0u8; 32]);
    assert_eq!(&header[45..49], &[0xff, 0xfe, 0xfd, 0xfc]);
    assert_eq!(&header[49..81], &[0xffu8; 32]);
}

#[test]
fn push_be_matches_std() {
    for value in [0u64, 1, 255, 256, 0xdead_beef, u64::MAX] {
        let mut out = vec![7u8];
        push_u64_be(&mut out, value);
        assert_eq!(&out[1..], &value.to_be_bytes());
    }
    for value in [0u32, 1, 0x1234_5678, u32::MAX] {
        let mut out = Vec::new();
        push_u32_be(&mut out, value);
        assert_eq!(out, value.to_be_bytes().to_vec());
        assert_eq!(read_u32_be(&out), value);
    }
}

#[test]
fn bytes_eq_compares_content() {
    assert!(bytes_eq(b"", b""));
    assert!(bytes_eq(b"abc", b"abc"));
    assert!(!bytes_eq(b"abc", b"abd"));
    assert!(!bytes_eq(b"abc", b"ab"));
}

#[test]
fn message_id_is_digest_of_header_and_payload_digest() {
    let mut preimage = hello_header();
    preimage.extend_from_slice(&HELLO_DIGEST);
    let expected = alloy_primitives::keccak256(&preimage).0;
    assert_eq!(calculate_message_id(&hello_packet()), expected);
}

#[test]
fn message_id_is_stable_across_calls() {
    let first = calculate_message_id(&hello_packet());
    let second = calculate_message_id(&hello_packet().clone());
    assert_eq!(first, second);
}

#[test]
fn message_id_changes_with_each_field() {
    let base = calculate_message_id(&hello_packet());
    let mut p = hello_packet();
    p.nonce = 2;
    assert_ne!(calculate_message_id(&p), base);
    let mut p = hello_packet();
    p.source_chain_id = 3;
    assert_ne!(calculate_message_id(&p), base);
    let mut p = hello_packet();
    p.sender[31] = 0;
    assert_ne!(calculate_message_id(&p), base);
    let mut p = hello_packet();
    p.destination_chain_id = 3;
    assert_ne!(calculate_message_id(&p), base);
    let mut p = hello_packet();
    p.receiver[0] = 0;
    assert_ne!(calculate_message_id(&p), base);
    let mut p = hello_packet();
    p.message = b"hellp".to_vec();
    assert_ne!(calculate_message_id(&p), base);
}

#[test]
fn assignment_params_give_the_packets_id() {
    assert_eq!(
        calculate_message_id_from_params(&hello_params()),
        calculate_message_id(&hello_packet())
    );
}

#[test]
fn empty_message_has_an_id() {
    let mut packet = hello_packet();
    packet.message = Vec::new();
    let mut params = hello_params();
    params.payload_hash = alloy_primitives::keccak256(b"").0;
    assert_eq!(
        calculate_message_id(&packet),
        calculate_message_id_from_params(&params)
    );
}

#[test]
fn params_check_accepts_matching_digest() {
    let stored = StoredPacket { packet: hello_packet(), options: Vec::new(), timestamp: 5 };
    assert_eq!(verify_packet_params(&stored, &hello_params()), Ok(()));
}

#[test]
fn params_check_rejects_other_destination_first() {
    let stored = StoredPacket { packet: hello_packet(), options: Vec::new(), timestamp: 5 };
    let mut params = hello_params();
    params.destination_chain_id = 3;
    params.payload_hash = [0; 32];
    assert_eq!(
        verify_packet_params(&stored, &params),
        Err(PipelineError::ParamsMismatch(Mismatch::DestinationChain))
    );
}

#[test]
fn params_check_rejects_tampered_digest() {
    let stored = StoredPacket { packet: hello_packet(), options: Vec::new(), timestamp: 5 };
    let mut params = hello_params();
    params.payload_hash = alloy_primitives::keccak256(b"tampered").0;
    assert_eq!(
        verify_packet_params(&stored, &params),
        Err(PipelineError::ParamsMismatch(Mismatch::PayloadHash))
    );
    // The payload itself is not its digest.
    let mut raw = [0u8; 32];
    raw[..5].copy_from_slice(b"hello");
    params.payload_hash = raw;
    assert_eq!(
        verify_packet_params(&stored, &params),
        Err(PipelineError::ParamsMismatch(Mismatch::PayloadHash))
    );
}

#[test]
fn default_data_dir_joins_data() {
    assert_eq!(default_data_dir("/srv/node"), "/srv/node/data");
    assert_eq!(default_data_dir("/srv/node/"), "/srv/node/data");
    assert_eq!(default_data_dir(""), "data");
    assert_eq!(default_data_dir("/"), "/data");
}
