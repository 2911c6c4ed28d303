//! Host-side services a loaded module may call. The module never touches
//! host state directly: it resolves names through the registry and asks
//! for spawns through a request queue that the host drains itself.

use vstd::prelude::*;

use crate::input_types::{ActionId, ACTION_NOT_FOUND};
use crate::registry::ActionRegistry;

verus! {

/// A module's request that a new game object appear at a position, in
/// fixed-point world units.
#[derive(Debug, Clone, Copy, PartialEq, Eq, Structural)]
pub struct SpawnRequest {
    pub x: i32,
    pub y: i32,
}

/// The functions the host provides to the module, with the state they
/// work on. Handed to every load and update hook.
pub struct HostInterface {
    /// Resolves action names to stable ids.
    pub registry: ActionRegistry,
    /// Spawns requested by the module this frame, oldest first.
    pub spawn_requests: Vec<SpawnRequest>,
}

impl HostInterface {
    /// Resolves `name` to its registered id, or `ACTION_NOT_FOUND`.
    pub fn get_action_id(&self, name: &str) -> (r: ActionId)
        ensures
            r == match self.registry.spec_get_id(name@) {
                Some(id) => id,
                None => ACTION_NOT_FOUND,
            },
    {
        match self.registry.get_id(name) {
            Some(id) => id,
            None => ACTION_NOT_FOUND,
        }
    }

    /// Queues a request to spawn a game object at `(x, y)`.
    pub fn spawn_enemy(&mut self, x: i32, y: i32)
        ensures
            final (self).registry == old(self).registry,
            final (self).spawn_requests@ == old(self).spawn_requests@ + seq![
                SpawnRequest { x, y },
            ],
    {
        self.spawn_requests.push(SpawnRequest { x, y });
    }
}

/// Builds the host interface around an action registry, with no spawn
/// requests pending.
pub fn create_interface(registry: ActionRegistry) -> (r: HostInterface)
    ensures
        r.registry == registry,
        r.spawn_requests@ =~= Seq::<SpawnRequest>::empty(),
{
    HostInterface { registry, spawn_requests: Vec::new() }
}

} // verus!
