//! Hot-reloadable module runtime.
//!
//! A host process drives game logic that lives in a separately loadable
//! module. The module is replaced at runtime by a newer build while its
//! private state survives the swap inside a versioned snapshot envelope.
//! The crate verifies the host-side protocol: the load handshake, the
//! snapshot codec, the lifecycle state machine and the teardown order.

use vstd::prelude::*;

pub mod arbiter;
pub mod codec;
pub mod components;
pub mod config;
pub mod engine_loop;
pub mod entity;
pub mod frame_graph;
pub mod host;
pub mod input_types;
pub mod loader;
pub mod my_game;
pub mod plugin_api;
pub mod plugin_manager;
pub mod registry;
pub mod storage;

verus! {

/// The binary-interface version the host was compiled against. A module
/// reporting any other value is rejected during the load handshake.
pub const ENGINE_API_VERSION: u32 = 1;

} // verus!
