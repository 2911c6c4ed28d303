//! The lifecycle manager: owns the one live module, drives its per-tick
//! update, and runs the hot-reload protocol (save, unload, load,
//! restore, rebind) as a small state machine. A faulty module degrades
//! the manager into `PausedError` — the host process stays alive, the
//! module is simply inert until a reload succeeds.
//!
//! Every decision the manager takes on a module's result code is a
//! verified function of that code (`apply_update_result`,
//! `apply_save_result`, `apply_restore_result`, `install_replacement`),
//! so the protocol's case analysis is part of the contracts, not only of
//! the bodies.

use vstd::prelude::*;
use vstd::string::StringExecFns;

use crate::codec::{decode_envelope, ENVELOPE_HEADER_LEN};
use crate::host::HostInterface;
use crate::input_types::FrameInputState;
use crate::loader::{load_module, spec_message, LoadError, ModuleSource, PluginHandle};
use crate::plugin_api::{FFIBuffer, FFIResult, Module, SNAPSHOT_MAGIC_HEADER};
use crate::ENGINE_API_VERSION;

verus! {

/// Minimum interval between two executed reloads, so that one held key
/// cannot trigger overlapping reload sequences.
pub const RELOAD_DEBOUNCE_MS: u64 = 500;

/// How many times a save racing a growing state is retried before the
/// snapshot is abandoned.
pub const MAX_SAVE_RETRIES: u32 = 3;

/// The manager's two-state machine: ticking normally, or suspended
/// after an unrecoverable fault with the reason kept for display.
pub enum PluginRuntimeState {
    Running,
    PausedError(String),
}

/// What the snapshot loop does after one save attempt: keep the written
/// buffer, retry with a fresh measurement, or abandon the snapshot.
pub enum SaveDecision {
    Keep(Vec<u8>),
    Retry,
    Abandon,
}

/// Owns the current module instance and the reload bookkeeping.
pub struct PluginManager<M> {
    /// The one live module, if any. `None` after a reload whose load
    /// step failed: the engine then runs with no module attached.
    pub plugin: Option<PluginHandle<M>>,
    pub runtime_state: PluginRuntimeState,
    /// Timestamp of the last fully successful reload, milliseconds.
    pub last_reload_ms: Option<u64>,
    pub reload_debounce_ms: u64,
    /// The state-layout hash a loaded module must report.
    pub expected_schema_hash: u64,
    /// The result the replacement's load hook returned during the last
    /// executed reload, kept for the host's runner to report: no result
    /// code is silently discarded.
    pub last_rebind_result: Option<FFIResult>,
}

impl<M: Module> PluginManager<M> {
    /// Timestamp of the last fully successful reload.
    pub open spec fn spec_last_reload(&self) -> Option<u64> {
        self.last_reload_ms
    }

    /// The debounce interval in force.
    pub open spec fn spec_debounce(&self) -> u64 {
        self.reload_debounce_ms
    }

    /// The state-layout hash a loaded module must report.
    pub open spec fn spec_expected_hash(&self) -> u64 {
        self.expected_schema_hash
    }

    /// Whether a module is currently attached.
    pub open spec fn module_attached(&self) -> bool {
        self.plugin is Some
    }

    /// No module that failed the load handshake is ever held: an
    /// attached module reported the host's binary-interface version and
    /// the expected state-layout hash.
    pub open spec fn handshake_valid(&self) -> bool {
        self.plugin matches Some(h) ==> h.api_version == ENGINE_API_VERSION && h.schema_hash
            == self.expected_schema_hash
    }

    /// Everything but the module and the runtime state: the reload
    /// bookkeeping carried unchanged through a tick or a save.
    pub open spec fn bookkeeping_unchanged(pre: Self, post: Self) -> bool {
        &&& post.last_reload_ms == pre.last_reload_ms
        &&& post.reload_debounce_ms == pre.reload_debounce_ms
        &&& post.expected_schema_hash == pre.expected_schema_hash
        &&& post.last_rebind_result == pre.last_rebind_result
    }

    /// The debounce rule: a reload at `now_ms` is permitted only when no
    /// reload succeeded yet, or the last one lies at least the debounce
    /// interval in the past.
    pub open spec fn reload_allowed(&self, now_ms: u64) -> bool {
        match self.spec_last_reload() {
            None => true,
            Some(t) => now_ms >= t + self.spec_debounce(),
        }
    }

    /// Loads the initial module through `source`. A load fault aborts
    /// construction: no manager exists without the handshake having
    /// passed once.
    pub fn new<S: ModuleSource<M>>(source: &mut S, expected_schema_hash: u64) -> (r: Result<
        Self,
        LoadError,
    >)
        ensures
            r matches Ok(m) ==> {
                &&& m.runtime_state is Running
                &&& m.module_attached()
                &&& m.spec_last_reload() is None
                &&& m.spec_debounce() == RELOAD_DEBOUNCE_MS
                &&& m.spec_expected_hash() == expected_schema_hash
                &&& m.handshake_valid()
                &&& m.last_rebind_result is None
            },
    {
        match load_module(source, expected_schema_hash) {
            Ok(handle) => Ok(
                PluginManager {
                    plugin: Some(handle),
                    runtime_state: PluginRuntimeState::Running,
                    last_reload_ms: None,
                    reload_debounce_ms: RELOAD_DEBOUNCE_MS,
                    expected_schema_hash,
                    last_rebind_result: None,
                },
            ),
            Err(e) => Err(e),
        }
    }

    /// Invokes the module's load hook once at startup and hands the
    /// result to the caller. A non-success result does not abort
    /// startup: the engine proceeds with whatever state the module
    /// initialized itself to.
    pub fn initial_load(&mut self, host: &mut HostInterface) -> (r: FFIResult)
        ensures
            final(self).runtime_state == old(self).runtime_state,
            Self::bookkeeping_unchanged(*old(self), *final(self)),
            final(self).module_attached() == old(self).module_attached(),
            old(self).handshake_valid() ==> final(self).handshake_valid(),
            !old(self).module_attached() ==> r == FFIResult::Error && *final(host) == *old(host),
    {
        match self.plugin.take() {
            Some(mut handle) => {
                let res = handle.module.on_load(host);
                self.plugin = Some(handle);
                res
            },
            None => FFIResult::Error,
        }
    }

    /// The per-tick decision on the update hook's result code: an
    /// internal fault (`PanicDetected`) suspends the manager; every
    /// other result — success or a tolerated soft failure — leaves the
    /// runtime state exactly as it was, and nothing else changes either
    /// way.
    pub fn apply_update_result(&mut self, result: FFIResult)
        ensures
            final(self).plugin == old(self).plugin,
            Self::bookkeeping_unchanged(*old(self), *final(self)),
            result == FFIResult::PanicDetected ==> (final(self).runtime_state matches
                PluginRuntimeState::PausedError(m) && m@ == "Panic during update"@),
            result != FFIResult::PanicDetected ==> final(self).runtime_state == old(
                self,
            ).runtime_state,
    {
        match result {
            FFIResult::PanicDetected => {
                self.runtime_state = PluginRuntimeState::PausedError(
                    String::from_str("Panic during update"),
                );
            },
            _ => {
                // Soft failure or success: the tick continues.
            },
        }
    }

    /// One tick. A no-op while `PausedError` or while no module is
    /// attached — a deliberately skipped tick reports `Success`.
    /// Otherwise the per-tick hook runs and its result is both applied
    /// (`apply_update_result`: only `PanicDetected` suspends) and handed
    /// back to the caller. The manager never leaves `PausedError` here:
    /// only a successful reload resumes it.
    pub fn update(&mut self, host: &mut HostInterface, input: &FrameInputState, dt_ms: u32) -> (r:
        FFIResult)
        ensures
            old(self).runtime_state matches PluginRuntimeState::PausedError(_) ==> *final(self)
                == *old(self) && *final(host) == *old(host) && r == FFIResult::Success,
            !old(self).module_attached() ==> *final(self) == *old(self) && *final(host) == *old(
                host,
            ),
            old(self).runtime_state is Running && !old(self).module_attached() ==> r
                == FFIResult::Success,
            old(self).runtime_state is Running && old(self).module_attached() ==> ((final(self).runtime_state matches PluginRuntimeState::PausedError(_)) <==> r
                == FFIResult::PanicDetected),
            final(self).module_attached() == old(self).module_attached(),
            Self::bookkeeping_unchanged(*old(self), *final(self)),
            old(self).handshake_valid() ==> final(self).handshake_valid(),
            final(self).runtime_state is Running ==> old(self).runtime_state is Running,
    {
        let paused = match &self.runtime_state {
            PluginRuntimeState::Running => false,
            PluginRuntimeState::PausedError(_) => true,
        };
        if paused {
            return FFIResult::Success;
        }
        match self.plugin.take() {
            Some(mut handle) => {
                let res = handle.module.on_update(host, input, dt_ms);
                self.plugin = Some(handle);
                self.apply_update_result(res);
                res
            },
            None => FFIResult::Success,
        }
    }

    /// The snapshot's decision on a measured state length: a module
    /// reporting zero bytes has nothing to save, so the snapshot is
    /// already complete — and empty — and no save call is made.
    pub fn snapshot_for_measurement(required_len: usize) -> (r: Option<Vec<u8>>)
        ensures
            r is Some <==> required_len == 0,
            r matches Some(b) ==> b@.len() == 0,
    {
        if required_len == 0 {
            Some(Vec::new())
        } else {
            None
        }
    }

    /// The snapshot's decision on one save attempt's result code:
    /// `Success` keeps exactly the bytes the module wrote;
    /// `BufferTooSmall` asks for a retry with a fresh measurement (the
    /// state grew between measuring and writing); `PanicDetected`
    /// suspends the manager and abandons the snapshot; any other failure
    /// abandons the snapshot with the manager untouched.
    pub fn apply_save_result(&mut self, result: FFIResult, bytes: Vec<u8>) -> (d: SaveDecision)
        ensures
            final(self).plugin == old(self).plugin,
            Self::bookkeeping_unchanged(*old(self), *final(self)),
            result == FFIResult::Success ==> (d matches SaveDecision::Keep(b) && b == bytes)
                && final(self).runtime_state == old(self).runtime_state,
            result == FFIResult::BufferTooSmall ==> d is Retry && final(self).runtime_state
                == old(self).runtime_state,
            result == FFIResult::PanicDetected ==> d is Abandon && (final(self).runtime_state
                matches PluginRuntimeState::PausedError(m) && m@ == "Panic during save"@),
            result == FFIResult::SchemaMismatch || result == FFIResult::Error ==> d is Abandon
                && final(self).runtime_state == old(self).runtime_state,
    {
        match result {
            FFIResult::Success => SaveDecision::Keep(bytes),
            FFIResult::BufferTooSmall => SaveDecision::Retry,
            FFIResult::PanicDetected => {
                self.runtime_state = PluginRuntimeState::PausedError(
                    String::from_str("Panic during save"),
                );
                SaveDecision::Abandon
            },
            _ => SaveDecision::Abandon,
        }
    }

    /// Measures, allocates and saves the module's state, absorbing
    /// `BufferTooSmall` races with a bounded retry loop. Exhausted
    /// retries abandon the snapshot — `None`, never an endless loop.
    /// Each attempt's outcome is decided by `snapshot_for_measurement`
    /// and `apply_save_result`, so every branch of the loop is
    /// contractual there.
    pub fn save_plugin_state(&mut self) -> (r: Option<Vec<u8>>)
        ensures
            final(self).module_attached() == old(self).module_attached(),
            Self::bookkeeping_unchanged(*old(self), *final(self)),
            old(self).handshake_valid() ==> final(self).handshake_valid(),
            final(self).runtime_state is Running ==> old(self).runtime_state is Running,
            r is Some ==> final(self).runtime_state == old(self).runtime_state,
            !old(self).module_attached() ==> r is None && *final(self) == *old(self),
    {
        let handle = match self.plugin.take() {
            Some(h) => h,
            None => {
                return None;
            },
        };
        let mut retry_count: u32 = 0;
        while retry_count < MAX_SAVE_RETRIES
            invariant
                old(self).plugin == Some(handle),
                self.plugin is None,
                self.runtime_state == old(self).runtime_state,
                self.last_reload_ms == old(self).last_reload_ms,
                self.reload_debounce_ms == old(self).reload_debounce_ms,
                self.expected_schema_hash == old(self).expected_schema_hash,
                self.last_rebind_result == old(self).last_rebind_result,
            decreases MAX_SAVE_RETRIES - retry_count,
        {
            let required_len = handle.module.get_state_len();
            if let Some(empty) = Self::snapshot_for_measurement(required_len) {
                self.plugin = Some(handle);
                return Some(empty);
            }
            let mut buf = FFIBuffer { bytes: vec![0u8; required_len] };
            let result = handle.module.save_state(&mut buf);
            match self.apply_save_result(result, buf.bytes) {
                SaveDecision::Keep(bytes) => {
                    self.plugin = Some(handle);
                    return Some(bytes);
                },
                SaveDecision::Retry => {
                    retry_count += 1;
                },
                SaveDecision::Abandon => {
                    self.plugin = Some(handle);
                    return None;
                },
            }
        }
        // Retries exhausted: proceed without a snapshot rather than
        // looping against a state that grows on every attempt.
        self.plugin = Some(handle);
        None
    }

    /// Installs the loader's outcome. A validated handle is attached
    /// with everything else untouched; a load fault attaches nothing and
    /// parks the manager in `PausedError` carrying exactly that fault's
    /// message. Returns whether a module was installed — true exactly
    /// for a successful load.
    pub fn install_replacement(
        &mut self,
        outcome: Result<PluginHandle<M>, LoadError>,
    ) -> (installed: bool)
        ensures
            installed <==> outcome is Ok,
            Self::bookkeeping_unchanged(*old(self), *final(self)),
            outcome matches Ok(h) ==> final(self).plugin == Some(h) && final(self).runtime_state
                == old(self).runtime_state,
            outcome matches Err(e) ==> final(self).plugin == old(self).plugin && (final(self).runtime_state matches PluginRuntimeState::PausedError(m) && m@ == spec_message(e)),
    {
        match outcome {
            Ok(handle) => {
                self.plugin = Some(handle);
                true
            },
            Err(e) => {
                self.runtime_state = PluginRuntimeState::PausedError(e.message());
                false
            },
        }
    }

    /// The decision on a restore attempt's result code: only an internal
    /// fault (`PanicDetected`) aborts the reload, suspending the
    /// manager. Every other result — success, a schema mismatch, a
    /// decode failure — lets the reload proceed, the module keeping
    /// whatever the restore left it with (its own defaults on any
    /// non-success). Returns whether the sequence must abort.
    pub fn apply_restore_result(&mut self, result: FFIResult) -> (aborted: bool)
        ensures
            aborted <==> result == FFIResult::PanicDetected,
            !aborted ==> *final(self) == *old(self),
            aborted ==> final(self).plugin == old(self).plugin && Self::bookkeeping_unchanged(
                *old(self),
                *final(self),
            ) && (final(self).runtime_state matches PluginRuntimeState::PausedError(m) && m@
                == "Panic during load_state"@),
    {
        match result {
            FFIResult::PanicDetected => {
                self.runtime_state = PluginRuntimeState::PausedError(
                    String::from_str("Panic during load_state"),
                );
                true
            },
            _ => false,
        }
    }

    /// The hot-reload protocol. Returns whether a reload was executed to
    /// completion:
    ///
    /// 1. debounce — reject silently within the debounce interval;
    /// 2. snapshot — only while `Running`, with the bounded retry loop;
    /// 3. teardown — the old module's destructor before its library
    ///    handle, then the temporary copy;
    /// 4. load — from the original source path, installed by
    ///    `install_replacement`: on failure the manager parks in
    ///    `PausedError` with that fault's message and no module attached;
    /// 5. restore — decided by `apply_restore_result`: a schema mismatch
    ///    or decode failure degrades to the new module's default state,
    ///    only a restore panic aborts;
    /// 6. rebind — the load hook runs regardless of the restore
    ///    outcome, because resolved ids and host bindings are transient;
    ///    its result is kept in `last_rebind_result` for the runner;
    /// 7. on full success, `Running` again and the reload timestamp is
    ///    recorded.
    pub fn try_hot_reload<S: ModuleSource<M>>(
        &mut self,
        source: &mut S,
        host: &mut HostInterface,
        now_ms: u64,
    ) -> (executed: bool)
        ensures
            !old(self).reload_allowed(now_ms) ==> !executed && *final(self) == *old(self)
                && *final(host) == *old(host) && *final(source) == *old(source),
            executed ==> final(self).runtime_state is Running && final(self).module_attached()
                && final(self).spec_last_reload() == Some(now_ms) && final(self).last_rebind_result is Some,
            !executed ==> final(self).spec_last_reload() == old(self).spec_last_reload() && final(self).last_rebind_result == old(self).last_rebind_result,
            old(self).reload_allowed(now_ms) && !executed ==> final(self).runtime_state matches
                PluginRuntimeState::PausedError(_),
            old(self).reload_allowed(now_ms) ==> final(self).handshake_valid(),
            final(self).spec_debounce() == old(self).spec_debounce(),
            final(self).spec_expected_hash() == old(self).spec_expected_hash(),
    {
        // 1. Debounce.
        let allowed = match self.last_reload_ms {
            None => true,
            Some(t) => now_ms >= t && now_ms - t >= self.reload_debounce_ms,
        };
        if !allowed {
            return false;
        }
        // 2. Snapshot, only while Running: a module already in
        // PausedError is assumed to hold unreliable state.
        let running = match &self.runtime_state {
            PluginRuntimeState::Running => true,
            PluginRuntimeState::PausedError(_) => false,
        };
        let snapshot: Option<Vec<u8>> = if running {
            self.save_plugin_state()
        } else {
            None
        };
        // 3. Teardown: state destructor first, then the library handle.
        match self.plugin.take() {
            Some(handle) => {
                let _events = handle.teardown(source);
            },
            None => {},
        }
        // 4. Load the replacement from the original source path.
        let outcome = load_module(source, self.expected_schema_hash);
        if !self.install_replacement(outcome) {
            return false;
        }
        // 5. Restore the snapshot, if one was captured.
        match snapshot {
            Some(bytes) => {
                if bytes.len() >= ENVELOPE_HEADER_LEN {
                    let envelope = decode_envelope(bytes.as_slice(), 0);
                    if envelope.magic_header == SNAPSHOT_MAGIC_HEADER {
                        let mut handle = self.plugin.take().unwrap();
                        let buf = FFIBuffer { bytes };
                        let res = handle.module.load_state(&buf);
                        self.plugin = Some(handle);
                        if self.apply_restore_result(res) {
                            return false;
                        }
                    }
                }
            },
            None => {},
        }
        // 6. Rebind host resources regardless of the restore outcome;
        // the result is kept for the runner to report.
        let mut handle = self.plugin.take().unwrap();
        let rebind = handle.module.on_load(host);
        self.plugin = Some(handle);
        self.last_rebind_result = Some(rebind);
        // 7. Full success.
        self.runtime_state = PluginRuntimeState::Running;
        self.last_reload_ms = Some(now_ms);
        true
    }
}

/// Law (debounce): once a reload has executed at `t1`, no reload is
/// permitted at any instant earlier than `t1` plus the debounce
/// interval. With `try_hot_reload`'s contract — an executed reload
/// records its timestamp, and a disallowed call changes nothing and
/// reports false — two calls separated by less than the debounce
/// interval execute at most one reload.
pub proof fn lemma_debounce_window<M: Module>(m: PluginManager<M>, t1: u64, t2: u64)
    requires
        m.spec_last_reload() == Some(t1),
        t2 < t1 + m.spec_debounce(),
    ensures
        !m.reload_allowed(t2),
{
}

} // verus!
