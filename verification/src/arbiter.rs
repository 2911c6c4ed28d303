//! Configuration and runtime bookkeeping for the priority-layer input
//! arbiter. Each layer may veto lower layers through a permission mask
//! and may lock its mask in place for a number of frames.

use vstd::prelude::*;

use crate::input_types::{ActionId, PriorityLayer, MOVE_UP, MOVE_DOWN, MOVE_LEFT, MOVE_RIGHT};

verus! {

/// Mask selecting the four canonical movement bits.
pub const MASK_MOVE: u64 = (1u64 << MOVE_UP) | (1u64 << MOVE_DOWN) | (1u64 << MOVE_LEFT) | (1u64
    << MOVE_RIGHT);

/// Mask permitting every channel.
pub const MASK_ALL: u64 = !0u64;

/// Static behaviour of one priority layer.
#[derive(Clone, Copy, PartialEq, Eq, Structural)]
pub struct LayerConfig {
    pub layer: PriorityLayer,
    /// Channels that stay permitted to lower layers while this layer is
    /// active.
    pub allowed_mask_when_active: u64,
    /// Whether activation freezes this layer's permission mask in place.
    pub lock_on_activation: bool,
    /// How many frames the frozen mask outlives the activation.
    pub lock_frames_on_activation: u32,
}

/// Per-frame state of one priority layer.
#[derive(Clone, Copy, PartialEq, Eq, Structural)]
pub struct LayerRuntimeState {
    pub lock_frames_remaining: u32,
    pub locked_permission_mask: u64,
}

impl Default for LayerRuntimeState {
    /// No lock held.
    fn default() -> (r: Self)
        ensures
            r.lock_frames_remaining == 0,
            r.locked_permission_mask == 0,
    {
        LayerRuntimeState { lock_frames_remaining: 0, locked_permission_mask: 0 }
    }
}

/// A digital action request raised on one priority layer.
#[derive(Clone, Copy, PartialEq, Eq, Structural)]
pub struct ActionSignal {
    pub layer: PriorityLayer,
    pub action_id: ActionId,
    pub active: bool,
}

} // verus!
