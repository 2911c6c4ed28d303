//! Components shared between the host and the game module. Only the
//! marker lives here; the geometric components are owned by the
//! renderer-facing side of the host.

use vstd::prelude::*;

verus! {

/// Marks the entity the player controls.
#[derive(Clone, Copy, Debug, PartialEq, Eq, Structural)]
pub struct CPlayer;

} // verus!
