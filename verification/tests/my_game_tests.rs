//! Snapshot behaviour of the stock game module: round trips, schema
//! mismatch handling, and the envelope layout.

use engine_core::codec::ENVELOPE_HEADER_LEN;
use engine_core::host::create_interface;
use engine_core::input_types::{FrameInputState, ACTION_NOT_FOUND};
use engine_core::my_game::{MyGame, MYGAME_PAYLOAD_LEN, MYGAME_STATE_LEN, SPAWN_INTERVAL_MS};
use engine_core::plugin_api::{
    FFIBuffer, FFIResult, Module, CURRENT_SCHEMA_HASH, CURRENT_STATE_VERSION,
    SNAPSHOT_MAGIC_HEADER,
};
use engine_core::registry::ActionRegistry;

fn saved_snapshot(game: &MyGame) -> Vec<u8> {
    let len = game.get_state_len();
    let mut buf = FFIBuffer { bytes: vec![0u8; len] };
    assert_eq!(game.save_state(&mut buf), FFIResult::Success);
    buf.bytes
}

#[test]
fn default_state_is_fresh() {
    let game = MyGame::default();
    assert_eq!(game.spawn_timer_ms, SPAWN_INTERVAL_MS);
    assert_eq!(game.score, 0);
    assert_eq!(game.actions, [ACTION_NOT_FOUND; 4]);
    assert!(!game.spawn_fn_bound);
    assert!(!game.scene_initialized);
}

#[test]
fn measure_matches_envelope_plus_payload() {
    let game = MyGame::default();
    assert_eq!(game.get_state_len(), ENVELOPE_HEADER_LEN + MYGAME_PAYLOAD_LEN);
    assert_eq!(game.get_state_len(), MYGAME_STATE_LEN);
}

#[test]
fn save_writes_the_versioned_envelope() {
    let mut game = MyGame::default();
    game.spawn_timer_ms = 1500;
    game.score = 42;
    let bytes = saved_snapshot(&game);
    assert_eq!(bytes.len(), 32);
    // Magic sentinel 0xCAFEBABE, little endian.
    assert_eq!(&bytes[0..4], &[0xBE, 0xBA, 0xFE, 0xCA]);
    // State-format version 1.
    assert_eq!(&bytes[4..8], &[1, 0, 0, 0]);
    // Schema hash 0x0123_4567_89AB_CDEF.
    assert_eq!(
        &bytes[8..16],
        &[0xEF, 0xCD, 0xAB, 0x89, 0x67, 0x45, 0x23, 0x01]
    );
    // Payload length 8.
    assert_eq!(&bytes[16..24], &[8, 0, 0, 0, 0, 0, 0, 0]);
    // Payload: timer 1500, then score 42, little endian.
    assert_eq!(&bytes[24..28], &1500u32.to_le_bytes());
    assert_eq!(&bytes[28..32], &42u32.to_le_bytes());
}

#[test]
fn save_reports_a_buffer_that_is_too_small() {
    let game = MyGame::default();
    let mut buf = FFIBuffer {
        bytes: vec![7u8; MYGAME_STATE_LEN - 1],
    };
    assert_eq!(game.save_state(&mut buf), FFIResult::BufferTooSmall);
    assert_eq!(buf.bytes, vec![7u8; MYGAME_STATE_LEN - 1]);
}

#[test]
fn round_trip_restores_serialized_fields_and_resets_transients() {
    let mut game = MyGame::default();
    game.spawn_timer_ms = 777;
    game.score = 123456;
    game.scene_initialized = true;
    game.spawn_fn_bound = true;
    game.actions = [4, 5, 6, 7];
    let bytes = saved_snapshot(&game);

    let mut fresh = MyGame::default();
    let res = fresh.load_state(&FFIBuffer { bytes });
    assert_eq!(res, FFIResult::Success);
    // Serialized fields come back field for field.
    assert_eq!(fresh.spawn_timer_ms, 777);
    assert_eq!(fresh.score, 123456);
    // Transient fields equal their post-load defaults, never stale values.
    assert_eq!(fresh.actions, [ACTION_NOT_FOUND; 4]);
    assert!(!fresh.spawn_fn_bound);
    // The scene is marked set up so a reload does not spawn duplicates.
    assert!(fresh.scene_initialized);
}

#[test]
fn concrete_scenario_timer_and_score_survive_the_envelope() {
    // A module with private state {timer=1.5, score=42}.
    let timer_seconds: f32 = 1.5;
    let mut game = MyGame::default();
    game.spawn_timer_ms = (timer_seconds * 1000.0) as u32;
    game.score = 42;
    let bytes = saved_snapshot(&game);

    // The envelope records {magic=0xCAFEBABE, version=1, schema_hash=H,
    // payload_len=P}.
    assert_eq!(
        u32::from_le_bytes(bytes[0..4].try_into().unwrap()),
        SNAPSHOT_MAGIC_HEADER
    );
    assert_eq!(
        u32::from_le_bytes(bytes[4..8].try_into().unwrap()),
        CURRENT_STATE_VERSION
    );
    assert_eq!(
        u64::from_le_bytes(bytes[8..16].try_into().unwrap()),
        CURRENT_SCHEMA_HASH
    );
    assert_eq!(
        u64::from_le_bytes(bytes[16..24].try_into().unwrap()),
        MYGAME_PAYLOAD_LEN as u64
    );

    // Loading into a freshly constructed instance of the same module
    // yields timer == 1.5s && score == 42.
    let mut fresh = MyGame::default();
    assert_eq!(
        fresh.load_state(&FFIBuffer {
            bytes: bytes.clone()
        }),
        FFIResult::Success
    );
    assert_eq!(fresh.spawn_timer_ms as f32 / 1000.0, 1.5);
    assert_eq!(fresh.score, 42);

    // Loading it into an instance reporting a different schema hash
    // yields the instance's own defaults and SchemaMismatch, not an
    // error.
    let mut mismatched = bytes;
    mismatched[8] ^= 0xFF;
    let mut other = MyGame::default();
    assert_eq!(
        other.load_state(&FFIBuffer { bytes: mismatched }),
        FFIResult::SchemaMismatch
    );
    assert_eq!(other.spawn_timer_ms, SPAWN_INTERVAL_MS);
    assert_eq!(other.score, 0);
    assert!(!other.scene_initialized);
}

#[test]
fn schema_mismatch_leaves_state_untouched() {
    let mut game = MyGame::default();
    game.spawn_timer_ms = 900;
    game.score = 3;
    let mut bytes = saved_snapshot(&game);
    // Flip one schema-hash byte.
    bytes[12] ^= 0x01;
    let mut target = MyGame::default();
    target.spawn_timer_ms = 1;
    target.score = 2;
    assert_eq!(
        target.load_state(&FFIBuffer { bytes }),
        FFIResult::SchemaMismatch
    );
    assert_eq!(target.spawn_timer_ms, 1);
    assert_eq!(target.score, 2);
}

#[test]
fn restore_rejects_a_bad_magic_sentinel() {
    let game = MyGame::default();
    let mut bytes = saved_snapshot(&game);
    bytes[0] = 0;
    let mut target = MyGame::default();
    assert_eq!(target.load_state(&FFIBuffer { bytes }), FFIResult::Error);
}

#[test]
fn restore_rejects_a_truncated_header() {
    let mut target = MyGame::default();
    let bytes = vec![0xBEu8, 0xBA, 0xFE];
    assert_eq!(target.load_state(&FFIBuffer { bytes }), FFIResult::Error);
}

#[test]
fn restore_rejects_a_payload_longer_than_the_buffer() {
    let game = MyGame::default();
    let mut bytes = saved_snapshot(&game);
    // Claim a payload longer than what follows the header.
    bytes[16] = 9;
    let mut target = MyGame::default();
    assert_eq!(target.load_state(&FFIBuffer { bytes }), FFIResult::Error);
}

#[test]
fn restore_rejects_a_payload_shorter_than_the_state() {
    let game = MyGame::default();
    let mut bytes = saved_snapshot(&game);
    // Claim a 4-byte payload: too short for the state shape.
    bytes[16] = 4;
    bytes.truncate(28);
    let mut target = MyGame::default();
    assert_eq!(target.load_state(&FFIBuffer { bytes }), FFIResult::Error);
}

#[test]
fn on_load_binds_actions_and_marks_the_scene() {
    let mut registry = ActionRegistry::new();
    let up = registry.register("MoveUp");
    let down = registry.register("MoveDown");
    let left = registry.register("MoveLeft");
    let right = registry.register("MoveRight");
    let mut host = create_interface(registry);
    let mut game = MyGame::default();
    assert_eq!(game.on_load(&mut host), FFIResult::Success);
    assert_eq!(game.actions, [up, down, left, right]);
    assert!(game.spawn_fn_bound);
    assert!(game.scene_initialized);
}

#[test]
fn update_counts_the_timer_down_and_requests_a_spawn() {
    let mut host = create_interface(ActionRegistry::new());
    let mut game = MyGame::default();
    assert_eq!(game.on_load(&mut host), FFIResult::Success);
    let input = FrameInputState {
        tick: 0,
        actions: 0,
        move_vector: [0, 0],
        rng_seed: 0,
    };
    // First step: the timer just counts down.
    assert_eq!(game.on_update(&mut host, &input, 500), FFIResult::Success);
    assert_eq!(game.spawn_timer_ms, SPAWN_INTERVAL_MS - 500);
    assert!(host.spawn_requests.is_empty());
    // A step at least as long as the remaining timer fires one spawn
    // and resets the cadence.
    let dt = game.spawn_timer_ms;
    assert_eq!(game.on_update(&mut host, &input, dt), FFIResult::Success);
    assert_eq!(game.spawn_timer_ms, SPAWN_INTERVAL_MS);
    assert_eq!(host.spawn_requests.len(), 1);
    let expected_x = ((dt as u64 * 12345) % 1280) as i32;
    let expected_y = ((dt as u64 * 67890) % 720) as i32;
    assert_eq!(host.spawn_requests[0].x, expected_x);
    assert_eq!(host.spawn_requests[0].y, expected_y);
}

#[test]
fn lib_test_layout_change_requires_version_ack() {
    const EXPECTED_VERSION: u32 = 1;
    const EXPECTED_HASH: u64 = 0x0123_4567_89AB_CDEF;

    assert_eq!(
        CURRENT_STATE_VERSION, EXPECTED_VERSION,
        "VERSION MISMATCH! Bump version if needed."
    );

    assert_eq!(
        CURRENT_SCHEMA_HASH, EXPECTED_HASH,
        "HASH MISMATCH! Update hash if schema changed."
    );
}

#[test]
fn state_test_layout_change_requires_version_ack() {
    let game = MyGame::default();
    let current_size = (game.get_state_len() - ENVELOPE_HEADER_LEN) as u64;

    const EXPECTED_SIZE: u64 = 8;
    const EXPECTED_VERSION: u32 = 1;
    const EXPECTED_HASH: u64 = 0x0123_4567_89AB_CDEF;

    assert_eq!(
        current_size, EXPECTED_SIZE,
        "STRUCT LAYOUT CHANGED! MyGame serialized size is {}. Update EXPECTED_SIZE.",
        current_size
    );

    assert_eq!(
        CURRENT_STATE_VERSION, EXPECTED_VERSION,
        "VERSION MISMATCH! Bump version if needed."
    );

    assert_eq!(
        CURRENT_SCHEMA_HASH, EXPECTED_HASH,
        "HASH MISMATCH! Update hash if schema changed."
    );
}
