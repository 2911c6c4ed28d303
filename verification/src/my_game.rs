//! The stock game module: a small module whose private state is a spawn
//! timer and a score. Its snapshot is the versioned envelope followed by
//! the two fields, little endian. Everything else it holds — resolved
//! action ids, the spawn capability, the scene flag — is a transient
//! per-process binding that is re-acquired by `on_load` and never
//! serialized.

use vstd::prelude::*;

use crate::codec::{
    decode_envelope, encode_envelope, envelope_at, envelope_bytes, read_u32_le, u32_at, u32_le,
    write_u32_le, lemma_envelope_roundtrip, lemma_u32_le_roundtrip, ENVELOPE_HEADER_LEN,
};
use crate::host::{HostInterface, SpawnRequest};
use crate::input_types::{ActionId, FrameInputState, ACTION_NOT_FOUND};
use crate::plugin_api::{
    FFIBuffer, FFIResult, Module, StateEnvelope, CURRENT_SCHEMA_HASH, CURRENT_STATE_VERSION,
    SNAPSHOT_MAGIC_HEADER,
};

verus! {

/// Serialized size of the module's private state: the two `u32` fields.
pub const MYGAME_PAYLOAD_LEN: usize = 8;

/// Total snapshot size: envelope header plus payload.
pub const MYGAME_STATE_LEN: usize = ENVELOPE_HEADER_LEN + MYGAME_PAYLOAD_LEN;

/// Cadence of enemy spawns, and the timer's value after a reset.
pub const SPAWN_INTERVAL_MS: u32 = 2000;

/// Private state of the stock game module.
pub struct MyGame {
    /// Milliseconds until the next enemy spawn. Serialized.
    pub spawn_timer_ms: u32,
    /// Accumulated score. Serialized.
    pub score: u32,
    /// Resolved ids for up, down, left, right. Transient.
    pub actions: [ActionId; 4],
    /// Whether host callbacks have been bound since the last load.
    /// Transient.
    pub spawn_fn_bound: bool,
    /// Whether the scene was already set up, so a reload does not spawn
    /// duplicates. Transient.
    pub scene_initialized: bool,
}

/// The payload a save writes: both serialized fields, little endian.
pub open spec fn payload_bytes(g: MyGame) -> Seq<u8> {
    u32_le(g.spawn_timer_ms) + u32_le(g.score)
}

/// The envelope a save writes for the current schema.
pub open spec fn mygame_envelope() -> StateEnvelope {
    StateEnvelope {
        magic_header: SNAPSHOT_MAGIC_HEADER,
        state_version: CURRENT_STATE_VERSION,
        schema_hash: CURRENT_SCHEMA_HASH,
        payload_len: MYGAME_PAYLOAD_LEN as u64,
    }
}

/// The complete snapshot of a state: envelope, then payload.
pub open spec fn snapshot_bytes(g: MyGame) -> Seq<u8> {
    envelope_bytes(mygame_envelope()) + payload_bytes(g)
}

/// The id `host` resolves `name` to, `ACTION_NOT_FOUND` when unknown.
pub open spec fn resolved_id(host: HostInterface, name: Seq<char>) -> ActionId {
    match host.registry.spec_get_id(name) {
        Some(id) => id,
        None => ACTION_NOT_FOUND,
    }
}

/// Where an update that fires the spawn timer asks for the enemy, a
/// placeholder position derived from the frame time.
pub open spec fn spawn_x(dt_ms: u32) -> i32 {
    ((dt_ms * 12345) % 1280) as i32
}

/// See `spawn_x`.
pub open spec fn spawn_y(dt_ms: u32) -> i32 {
    ((dt_ms * 67890) % 720) as i32
}

impl Default for MyGame {
    /// A fresh instance: full spawn timer, zero score, nothing bound.
    fn default() -> (r: Self)
        ensures
            r.spawn_timer_ms == SPAWN_INTERVAL_MS,
            r.score == 0,
            r.actions[0] == ACTION_NOT_FOUND,
            r.actions[1] == ACTION_NOT_FOUND,
            r.actions[2] == ACTION_NOT_FOUND,
            r.actions[3] == ACTION_NOT_FOUND,
            !r.spawn_fn_bound,
            !r.scene_initialized,
    {
        MyGame {
            spawn_timer_ms: SPAWN_INTERVAL_MS,
            score: 0,
            actions: [ACTION_NOT_FOUND, ACTION_NOT_FOUND, ACTION_NOT_FOUND, ACTION_NOT_FOUND],
            spawn_fn_bound: false,
            scene_initialized: false,
        }
    }
}

impl MyGame {
    /// Re-acquires every transient host binding: the four movement
    /// action ids and the spawn capability.
    pub fn bind_host_resources(&mut self, host: &HostInterface)
        ensures
            final(self).actions[0] == resolved_id(*host, "MoveUp"@),
            final(self).actions[1] == resolved_id(*host, "MoveDown"@),
            final(self).actions[2] == resolved_id(*host, "MoveLeft"@),
            final(self).actions[3] == resolved_id(*host, "MoveRight"@),
            final(self).spawn_fn_bound,
            final(self).spawn_timer_ms == old(self).spawn_timer_ms,
            final(self).score == old(self).score,
            final(self).scene_initialized == old(self).scene_initialized,
    {
        let up = host.get_action_id("MoveUp");
        let down = host.get_action_id("MoveDown");
        let left = host.get_action_id("MoveLeft");
        let right = host.get_action_id("MoveRight");
        self.actions = [up, down, left, right];
        self.spawn_fn_bound = true;
    }
}

impl Module for MyGame {
    /// Binds host resources and marks the scene as set up. Restored
    /// state keeps its serialized fields; only the transient bindings
    /// change.
    fn on_load(&mut self, host: &mut HostInterface) -> (r: FFIResult)
        ensures
            r == FFIResult::Success,
            *final(host) == *old(host),
            final(self).actions[0] == resolved_id(*old(host), "MoveUp"@),
            final(self).actions[1] == resolved_id(*old(host), "MoveDown"@),
            final(self).actions[2] == resolved_id(*old(host), "MoveLeft"@),
            final(self).actions[3] == resolved_id(*old(host), "MoveRight"@),
            final(self).spawn_fn_bound,
            final(self).scene_initialized,
            final(self).spawn_timer_ms == old(self).spawn_timer_ms,
            final(self).score == old(self).score,
    {
        self.bind_host_resources(host);
        if !self.scene_initialized {
            self.scene_initialized = true;
        }
        FFIResult::Success
    }

    /// One simulation step: while the spawn capability is bound, the
    /// spawn timer runs down by `dt_ms`; when it expires, one enemy
    /// spawn is requested and the timer starts over.
    fn on_update(&mut self, host: &mut HostInterface, _input: &FrameInputState, dt_ms: u32) -> (r:
        FFIResult)
        ensures
            r == FFIResult::Success,
            final(self).score == old(self).score,
            final(self).actions == old(self).actions,
            final(self).spawn_fn_bound == old(self).spawn_fn_bound,
            final(self).scene_initialized == old(self).scene_initialized,
            final(host).registry == old(host).registry,
            !old(self).spawn_fn_bound ==> *final(self) == *old(self) && *final(host) == *old(host),
            old(self).spawn_fn_bound && dt_ms < old(self).spawn_timer_ms ==> final(self).spawn_timer_ms == old(self).spawn_timer_ms - dt_ms && *final(host) == *old(host),
            old(self).spawn_fn_bound && dt_ms >= old(self).spawn_timer_ms ==> final(self).spawn_timer_ms == SPAWN_INTERVAL_MS && final(host).spawn_requests@ == old(host).spawn_requests@ + seq![SpawnRequest { x: spawn_x(dt_ms), y: spawn_y(dt_ms) }],
    {
        if !self.spawn_fn_bound {
            return FFIResult::Success;
        }
        if dt_ms < self.spawn_timer_ms {
            self.spawn_timer_ms = self.spawn_timer_ms - dt_ms;
        } else {
            self.spawn_timer_ms = SPAWN_INTERVAL_MS;
            let x = ((dt_ms as u64 * 12345) % 1280) as i32;
            let y = ((dt_ms as u64 * 67890) % 720) as i32;
            host.spawn_enemy(x, y);
        }
        FFIResult::Success
    }

    /// Best-effort unload hook; this module has nothing to flush.
    fn on_unload(&mut self, host: &mut HostInterface) -> (r: FFIResult)
        ensures
            r == FFIResult::Success,
            *final(self) == *old(self),
            *final(host) == *old(host),
    {
        FFIResult::Success
    }

    /// Exact size of the snapshot a save writes.
    fn get_state_len(&self) -> (r: usize)
        ensures
            r == MYGAME_STATE_LEN,
            r == snapshot_bytes(*self).len(),
    {
        MYGAME_STATE_LEN
    }

    /// Writes the snapshot into the front of `buf`, leaving the rest of
    /// the buffer as it was, or reports `BufferTooSmall` without
    /// touching it.
    fn save_state(&self, buf: &mut FFIBuffer) -> (r: FFIResult)
        ensures
            old(buf).bytes@.len() < MYGAME_STATE_LEN ==> r == FFIResult::BufferTooSmall && final(buf).bytes@ == old(buf).bytes@,
            old(buf).bytes@.len() >= MYGAME_STATE_LEN ==> r == FFIResult::Success && final(buf).bytes@ == snapshot_bytes(*self) + old(buf).bytes@.skip(MYGAME_STATE_LEN as int),
    {
        if buf.bytes.len() < MYGAME_STATE_LEN {
            return FFIResult::BufferTooSmall;
        }
        let envelope = StateEnvelope {
            magic_header: SNAPSHOT_MAGIC_HEADER,
            state_version: CURRENT_STATE_VERSION,
            schema_hash: CURRENT_SCHEMA_HASH,
            payload_len: MYGAME_PAYLOAD_LEN as u64,
        };
        let mut image: Vec<u8> = Vec::new();
        encode_envelope(&envelope, &mut image);
        write_u32_le(&mut image, self.spawn_timer_ms);
        write_u32_le(&mut image, self.score);
        assert(image@ =~= snapshot_bytes(*self));
        let n = buf.bytes.len();
        let mut i: usize = 0;
        while i < MYGAME_STATE_LEN
            invariant
                i <= MYGAME_STATE_LEN,
                image@.len() == MYGAME_STATE_LEN,
                image@ == snapshot_bytes(*self),
                buf.bytes@.len() == n,
                n >= MYGAME_STATE_LEN,
                forall|k: int| 0 <= k < i ==> buf.bytes@[k] == image@[k],
                forall|k: int| i <= k < n ==> buf.bytes@[k] == old(buf).bytes@[k],
            decreases MYGAME_STATE_LEN - i,
        {
            let b = image[i];
            buf.bytes[i] = b;
            i += 1;
        }
        assert(buf.bytes@ =~= snapshot_bytes(*self) + old(buf).bytes@.skip(MYGAME_STATE_LEN as int));
        FFIResult::Success
    }

    /// Validates the snapshot in `buf` and restores it: the magic
    /// sentinel must match (else `Error`), the schema hash must match
    /// the module's own (else `SchemaMismatch`, state untouched), and
    /// the declared payload must fit the buffer and the state shape
    /// (else `Error`). On success the serialized fields are taken from
    /// the payload and every transient field returns to its post-load
    /// default, with the scene marked as already set up.
    fn load_state(&mut self, buf: &FFIBuffer) -> (r: FFIResult)
        ensures
            buf.bytes@.len() < ENVELOPE_HEADER_LEN ==> r == FFIResult::Error && *final(self)
                == *old(self),
            buf.bytes@.len() >= ENVELOPE_HEADER_LEN && envelope_at(buf.bytes@, 0).magic_header
                != SNAPSHOT_MAGIC_HEADER ==> r == FFIResult::Error && *final(self) == *old(self),
            buf.bytes@.len() >= ENVELOPE_HEADER_LEN && envelope_at(buf.bytes@, 0).magic_header
                == SNAPSHOT_MAGIC_HEADER && envelope_at(buf.bytes@, 0).schema_hash
                != CURRENT_SCHEMA_HASH ==> r == FFIResult::SchemaMismatch && *final(self) == *old(self),
            buf.bytes@.len() >= ENVELOPE_HEADER_LEN && envelope_at(buf.bytes@, 0).magic_header
                == SNAPSHOT_MAGIC_HEADER && envelope_at(buf.bytes@, 0).schema_hash
                == CURRENT_SCHEMA_HASH && (buf.bytes@.len() - ENVELOPE_HEADER_LEN < envelope_at(
                buf.bytes@,
                0,
            ).payload_len || envelope_at(buf.bytes@, 0).payload_len < MYGAME_PAYLOAD_LEN) ==> r
                == FFIResult::Error && *final(self) == *old(self),
            buf.bytes@.len() >= ENVELOPE_HEADER_LEN && envelope_at(buf.bytes@, 0).magic_header
                == SNAPSHOT_MAGIC_HEADER && envelope_at(buf.bytes@, 0).schema_hash
                == CURRENT_SCHEMA_HASH && buf.bytes@.len() - ENVELOPE_HEADER_LEN >= envelope_at(
                buf.bytes@,
                0,
            ).payload_len && envelope_at(buf.bytes@, 0).payload_len >= MYGAME_PAYLOAD_LEN ==> {
                &&& r == FFIResult::Success
                &&& final(self).spawn_timer_ms == u32_at(buf.bytes@, ENVELOPE_HEADER_LEN as int)
                &&& final(self).score == u32_at(buf.bytes@, ENVELOPE_HEADER_LEN + 4)
                &&& final(self).actions[0] == ACTION_NOT_FOUND
                &&& final(self).actions[1] == ACTION_NOT_FOUND
                &&& final(self).actions[2] == ACTION_NOT_FOUND
                &&& final(self).actions[3] == ACTION_NOT_FOUND
                &&& !final(self).spawn_fn_bound
                &&& final(self).scene_initialized
            },
    {
        let len = buf.bytes.len();
        if len < ENVELOPE_HEADER_LEN {
            return FFIResult::Error;
        }
        let envelope = decode_envelope(buf.bytes.as_slice(), 0);
        if envelope.magic_header != SNAPSHOT_MAGIC_HEADER {
            return FFIResult::Error;
        }
        if envelope.schema_hash != CURRENT_SCHEMA_HASH {
            return FFIResult::SchemaMismatch;
        }
        if ((len - ENVELOPE_HEADER_LEN) as u64) < envelope.payload_len {
            return FFIResult::Error;
        }
        if envelope.payload_len < MYGAME_PAYLOAD_LEN as u64 {
            return FFIResult::Error;
        }
        let timer = read_u32_le(buf.bytes.as_slice(), ENVELOPE_HEADER_LEN);
        let score = read_u32_le(buf.bytes.as_slice(), ENVELOPE_HEADER_LEN + 4);
        self.spawn_timer_ms = timer;
        self.score = score;
        self.actions = [ACTION_NOT_FOUND, ACTION_NOT_FOUND, ACTION_NOT_FOUND, ACTION_NOT_FOUND];
        self.spawn_fn_bound = false;
        self.scene_initialized = true;
        FFIResult::Success
    }

    /// Releases module-owned state: the instance returns to its default
    /// construction.
    fn drop_state(&mut self)
        ensures
            final(self).spawn_timer_ms == SPAWN_INTERVAL_MS,
            final(self).score == 0,
            !final(self).spawn_fn_bound,
            !final(self).scene_initialized,
    {
        self.spawn_timer_ms = SPAWN_INTERVAL_MS;
        self.score = 0;
        self.actions = [ACTION_NOT_FOUND, ACTION_NOT_FOUND, ACTION_NOT_FOUND, ACTION_NOT_FOUND];
        self.spawn_fn_bound = false;
        self.scene_initialized = false;
    }

    /// The layout hash of this module's private state.
    fn get_schema_hash(&self) -> (r: u64)
        ensures
            r == CURRENT_SCHEMA_HASH,
    {
        CURRENT_SCHEMA_HASH
    }
}

/// Round trip: the snapshot a save writes for any state `g` passes every
/// restore check — the magic sentinel, the schema hash and the payload
/// bounds — and its payload decodes back to exactly `g`'s serialized
/// fields. Together with the `load_state` contract: restoring a saved
/// snapshot into any instance reproduces the serialized fields of `g`
/// and resets every transient field to its post-load default.
pub proof fn lemma_snapshot_round_trip(g: MyGame)
    ensures
        snapshot_bytes(g).len() == MYGAME_STATE_LEN,
        envelope_at(snapshot_bytes(g), 0) == mygame_envelope(),
        envelope_at(snapshot_bytes(g), 0).magic_header == SNAPSHOT_MAGIC_HEADER,
        envelope_at(snapshot_bytes(g), 0).schema_hash == CURRENT_SCHEMA_HASH,
        envelope_at(snapshot_bytes(g), 0).payload_len == MYGAME_PAYLOAD_LEN,
        u32_at(snapshot_bytes(g), ENVELOPE_HEADER_LEN as int) == g.spawn_timer_ms,
        u32_at(snapshot_bytes(g), ENVELOPE_HEADER_LEN + 4) == g.score,
{
    let s = snapshot_bytes(g);
    assert(s =~= Seq::<u8>::empty() + envelope_bytes(mygame_envelope()) + payload_bytes(g));
    lemma_envelope_roundtrip(mygame_envelope(), Seq::<u8>::empty(), payload_bytes(g));
    let tb = u32_le(g.spawn_timer_ms);
    let sb = u32_le(g.score);
    assert forall|i: int| 0 <= i < 4 implies s[24 + i] == tb[i] by {
        assert(payload_bytes(g)[i] == tb[i]);
    }
    assert(u32_at(s, 24) == u32_at(tb, 0));
    lemma_u32_le_roundtrip(g.spawn_timer_ms);
    assert forall|i: int| 0 <= i < 4 implies s[28 + i] == sb[i] by {
        assert(payload_bytes(g)[4 + i] == sb[i]);
    }
    assert(u32_at(s, 28) == u32_at(sb, 0));
    lemma_u32_le_roundtrip(g.score);
}

} // verus!

