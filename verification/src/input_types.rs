//! Compact, integer-only input types shared between the host and a
//! loaded module, and used for deterministic replay.

use vstd::prelude::*;

verus! {

/// Stable integer id for a named action.
pub type ActionId = u32;

/// Returned when a name resolves to no registered action.
pub const ACTION_NOT_FOUND: ActionId = u32::MAX;

/// Canonical ids for core movement. The host registers these actions
/// first so that their numeric ids are exactly these values.
pub const MOVE_UP: ActionId = 0;

pub const MOVE_DOWN: ActionId = 1;

pub const MOVE_LEFT: ActionId = 2;

pub const MOVE_RIGHT: ActionId = 3;

/// Number of analog axes exposed across the module boundary.
pub const MAX_AXES: usize = 8;

/// Priority stack for subsumption-style input arbitration, from the most
/// to the least commanding layer.
#[derive(Debug, Clone, Copy, PartialEq, Eq, Structural)]
pub enum PriorityLayer {
    Reflex,
    Cutscene,
    Control,
    Ambient,
}

/// A digital action request raised on one priority layer.
#[derive(Debug, Clone, Copy, PartialEq, Eq, Structural)]
pub struct ActionSignal {
    pub layer: PriorityLayer,
    pub action_id: ActionId,
    pub active: bool,
}

impl Default for ActionSignal {
    /// An inactive signal on the least commanding layer, naming no
    /// action.
    fn default() -> (r: Self)
        ensures
            r.layer == PriorityLayer::Ambient,
            r.action_id == ACTION_NOT_FOUND,
            !r.active,
    {
        ActionSignal { layer: PriorityLayer::Ambient, action_id: ACTION_NOT_FOUND, active: false }
    }
}

/// Compact per-frame input snapshot: a digital action mask plus a
/// quantized movement vector, tagged for deterministic replay.
#[derive(Debug, Clone, Copy, PartialEq, Eq)]
pub struct FrameInputState {
    pub tick: u64,
    pub actions: u64,
    pub move_vector: [i16; 2],
    pub rng_seed: u64,
}

/// The nearest `i16` to `v`: `v` itself inside the `i16` range, the
/// nearer bound outside it.
pub fn clamp_i16(v: i64) -> (r: i16)
    ensures
        v > i16::MAX ==> r == i16::MAX,
        v < i16::MIN ==> r == i16::MIN,
        i16::MIN <= v <= i16::MAX ==> r == v,
{
    if v > i16::MAX as i64 {
        i16::MAX
    } else if v < i16::MIN as i64 {
        i16::MIN
    } else {
        v as i16
    }
}

/// True when the action's bit is set in a digital mask. Actions with ids
/// past the mask width are never active.
pub fn mask_is_active(mask: u64, action_id: ActionId) -> (r: bool)
    ensures
        r == (action_id < 64 && (mask >> action_id) & 1 == 1),
{
    if action_id >= 64 {
        return false;
    }
    (mask >> action_id) & 1 == 1
}

} // verus!
