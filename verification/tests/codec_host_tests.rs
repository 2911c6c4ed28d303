//! The byte-level envelope codec and the host-side services.

use engine_core::codec::{
    decode_envelope, encode_envelope, read_u32_le, read_u64_le, write_u32_le, write_u64_le,
    ENVELOPE_HEADER_LEN,
};
use engine_core::host::{create_interface, SpawnRequest};
use engine_core::input_types::ACTION_NOT_FOUND;
use engine_core::plugin_api::StateEnvelope;
use engine_core::registry::ActionRegistry;

#[test]
fn integer_fields_round_trip_little_endian() {
    let mut out: Vec<u8> = Vec::new();
    write_u32_le(&mut out, 0xCAFEBABE);
    write_u64_le(&mut out, 0x0123_4567_89AB_CDEF);
    assert_eq!(out.len(), 12);
    assert_eq!(&out[0..4], &[0xBE, 0xBA, 0xFE, 0xCA]);
    assert_eq!(read_u32_le(&out, 0), 0xCAFEBABE);
    assert_eq!(read_u64_le(&out, 4), 0x0123_4567_89AB_CDEF);
}

#[test]
fn envelope_encoding_round_trips() {
    let envelope = StateEnvelope {
        magic_header: 0xCAFEBABE,
        state_version: 1,
        schema_hash: 0x0123_4567_89AB_CDEF,
        payload_len: 8,
    };
    let mut bytes: Vec<u8> = Vec::new();
    encode_envelope(&envelope, &mut bytes);
    assert_eq!(bytes.len(), ENVELOPE_HEADER_LEN);
    let decoded = decode_envelope(&bytes, 0);
    assert_eq!(decoded, envelope);
}

#[test]
fn envelope_decoding_is_byte_wise_at_any_offset() {
    // The envelope need not sit at an aligned position: decoding reads
    // byte by byte.
    let envelope = StateEnvelope {
        magic_header: 0xDEAD_F00D,
        state_version: 9,
        schema_hash: 42,
        payload_len: 1000,
    };
    let mut bytes: Vec<u8> = vec![0xAB; 3];
    encode_envelope(&envelope, &mut bytes);
    let decoded = decode_envelope(&bytes, 3);
    assert_eq!(decoded, envelope);
}

#[test]
fn host_interface_resolves_names_and_queues_spawns() {
    let mut registry = ActionRegistry::new();
    let jump = registry.register("Jump");
    let mut host = create_interface(registry);
    assert_eq!(host.get_action_id("Jump"), jump);
    assert_eq!(host.get_action_id("Fly"), ACTION_NOT_FOUND);
    assert!(host.spawn_requests.is_empty());
    host.spawn_enemy(40, -25);
    host.spawn_enemy(7, 8);
    assert_eq!(
        host.spawn_requests,
        vec![SpawnRequest { x: 40, y: -25 }, SpawnRequest { x: 7, y: 8 }]
    );
}
