//! The contract shared by the host and a loadable module: result codes,
//! buffer and envelope shapes, and the snapshot constants.

use vstd::prelude::*;

use crate::host::HostInterface;
use crate::input_types::FrameInputState;

verus! {

/// Sentinel that opens every snapshot envelope. No other header field is
/// trusted before this one matches.
pub const SNAPSHOT_MAGIC_HEADER: u32 = 0xCAFEBABE;

/// Identifies the in-memory layout of the module's private state. A
/// snapshot whose recorded hash differs is not interpreted as the current
/// state shape.
pub const CURRENT_SCHEMA_HASH: u64 = 0x0123_4567_89AB_CDEF;

/// Version of the snapshot state format itself. This constant stands in
/// for a state-format-version query: a module records it in every
/// envelope it saves (`StateEnvelope::state_version`), and the host
/// compiles against this value.
pub const CURRENT_STATE_VERSION: u32 = 1;

/// Result code returned by every module entry point. The lifecycle
/// manager inspects each one; none is silently ignored.
#[derive(Debug, Copy, Clone, PartialEq, Eq, Structural)]
pub enum FFIResult {
    Success,
    BufferTooSmall,
    SchemaMismatch,
    PanicDetected,
    Error,
}

/// A host-allocated byte buffer handed across the module boundary. The
/// host only moves the bytes; it never interprets the payload.
pub struct FFIBuffer {
    pub bytes: Vec<u8>,
}

/// Header of a snapshot: `{magic, state-format version, schema hash,
/// payload length}`, followed by an opaque payload.
#[derive(Debug, Copy, Clone, PartialEq, Eq, Structural)]
pub struct StateEnvelope {
    pub magic_header: u32,
    pub state_version: u32,
    pub schema_hash: u64,
    pub payload_len: u64,
}

/// Opaque capability token standing for the host's internal world. A
/// module may pass it back into host callbacks but can never construct or
/// inspect one.
pub struct HostContext {
    _private: (),
}

/// The entire surface a module presents to the host: the lifecycle and
/// state-management hooks of the function table. The host assumes
/// nothing about a module's behaviour beyond these signatures — a module
/// is separately built, possibly broken code, and every result code it
/// returns is inspected by the lifecycle manager.
pub trait Module: Sized {
    /// Re-acquire transient host bindings. Safe to call after every load
    /// and reload.
    fn on_load(&mut self, host: &mut HostInterface) -> FFIResult;

    /// One simulation step of `dt_ms` milliseconds.
    fn on_update(&mut self, host: &mut HostInterface, input: &FrameInputState, dt_ms: u32) -> FFIResult;

    /// Best-effort hook before the module is torn down.
    fn on_unload(&mut self, host: &mut HostInterface) -> FFIResult;

    /// Exact byte count that saving the current state needs, header and
    /// payload together.
    fn get_state_len(&self) -> usize;

    /// Writes header and payload into the host-allocated buffer, or
    /// reports `BufferTooSmall` when the state grew after measurement.
    fn save_state(&self, buf: &mut FFIBuffer) -> FFIResult;

    /// Validates a snapshot and restores it over the current state.
    fn load_state(&mut self, buf: &FFIBuffer) -> FFIResult;

    /// Frees module-owned state. The host calls this before it releases
    /// the module's library handle.
    fn drop_state(&mut self);

    /// Constant identifying the layout of the module's private state.
    fn get_schema_hash(&self) -> u64;
}

} // verus!
