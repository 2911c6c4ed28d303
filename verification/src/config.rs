//! Centralized defaults for input configuration.

use vstd::prelude::*;

use crate::arbiter::{LayerConfig, MASK_ALL};
use crate::input_types::PriorityLayer;

verus! {

/// Namespace for the stock input configuration.
pub struct InputDefaults;

impl InputDefaults {
    /// The default arbiter layering: Reflex and Cutscene veto everything
    /// below them while active (Reflex additionally locks its veto for
    /// 30 frames); Control and Ambient permit everything.
    pub fn default_arbiter_layers() -> (r: Vec<LayerConfig>)
        ensures
            r@.len() == 4,
            r@[0] == (LayerConfig {
                layer: PriorityLayer::Reflex,
                allowed_mask_when_active: 0,
                lock_on_activation: true,
                lock_frames_on_activation: 30,
            }),
            r@[1] == (LayerConfig {
                layer: PriorityLayer::Cutscene,
                allowed_mask_when_active: 0,
                lock_on_activation: false,
                lock_frames_on_activation: 0,
            }),
            r@[2] == (LayerConfig {
                layer: PriorityLayer::Control,
                allowed_mask_when_active: MASK_ALL,
                lock_on_activation: false,
                lock_frames_on_activation: 0,
            }),
            r@[3] == (LayerConfig {
                layer: PriorityLayer::Ambient,
                allowed_mask_when_active: MASK_ALL,
                lock_on_activation: false,
                lock_frames_on_activation: 0,
            }),
    {
        let mut layers: Vec<LayerConfig> = Vec::new();
        layers.push(
            LayerConfig {
                layer: PriorityLayer::Reflex,
                allowed_mask_when_active: 0,
                lock_on_activation: true,
                lock_frames_on_activation: 30,
            },
        );
        layers.push(
            LayerConfig {
                layer: PriorityLayer::Cutscene,
                allowed_mask_when_active: 0,
                lock_on_activation: false,
                lock_frames_on_activation: 0,
            },
        );
        layers.push(
            LayerConfig {
                layer: PriorityLayer::Control,
                allowed_mask_when_active: MASK_ALL,
                lock_on_activation: false,
                lock_frames_on_activation: 0,
            },
        );
        layers.push(
            LayerConfig {
                layer: PriorityLayer::Ambient,
                allowed_mask_when_active: MASK_ALL,
                lock_on_activation: false,
                lock_frames_on_activation: 0,
            },
        );
        layers
    }
}

} // verus!
