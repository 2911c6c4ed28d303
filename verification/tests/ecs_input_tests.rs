//! Entity identifiers, sparse-set storage, the action registry, input
//! helpers, the loader's name computation and the frame-graph
//! description.

use engine_core::arbiter::{LayerConfig, LayerRuntimeState, MASK_ALL, MASK_MOVE};
use engine_core::components::CPlayer;
use engine_core::config::InputDefaults;
use engine_core::entity::Entity;
use engine_core::frame_graph::{
    frame_graph_desc, validate_graph, FrameGraphDesc, GraphError, PassDesc, PassKind, ResourceDesc,
    ResourceId, ResourceKind,
};
use engine_core::input_types::{
    clamp_i16, mask_is_active, ActionSignal, PriorityLayer, ACTION_NOT_FOUND, MOVE_DOWN,
    MOVE_LEFT, MOVE_RIGHT, MOVE_UP,
};
use engine_core::loader::{u64_to_string, unique_copy_name};
use engine_core::registry::ActionRegistry;
use engine_core::storage::SparseSet;

#[test]
fn entity_packs_index_and_generation() {
    let e = Entity::new(7, 3);
    assert_eq!(e.index(), 7);
    assert_eq!(e.generation(), 3);
    let extreme = Entity::new(u32::MAX, u32::MAX);
    assert_eq!(extreme.index(), u32::MAX as usize);
    assert_eq!(extreme.generation(), u32::MAX);
    assert_eq!(Entity::new(7, 3), e);
    assert_ne!(Entity::new(7, 4), e);
}

#[test]
fn sparse_set_stores_and_finds_components() {
    let mut set: SparseSet<u32> = SparseSet::new();
    let a = Entity::new(0, 0);
    let b = Entity::new(5, 1);
    set.insert(a, 10);
    set.insert(b, 20);
    assert_eq!(set.get(a), Some(&10));
    assert_eq!(set.get(b), Some(&20));
    assert_eq!(set.get(Entity::new(3, 0)), None);
    // Overwriting by the same entity replaces the value.
    set.insert(a, 11);
    assert_eq!(set.get(a), Some(&11));
    // Dense data stays tightly packed.
    assert_eq!(set.as_slice().len(), 2);
}

#[test]
fn sparse_set_rejects_stale_generations() {
    let mut set: SparseSet<&str> = SparseSet::new();
    let first = Entity::new(2, 0);
    set.insert(first, "old");
    // The slot is recycled for a newer generation.
    let recycled = Entity::new(2, 1);
    set.insert(recycled, "new");
    assert_eq!(set.get(recycled), Some(&"new"));
    // The stale handle no longer resolves.
    assert_eq!(set.get(first), None);
}

#[test]
fn sparse_set_mutable_slice_edits_components() {
    let mut set: SparseSet<u32> = SparseSet::new();
    let e = Entity::new(1, 0);
    set.insert(e, 5);
    for v in set.as_mut_slice().iter_mut() {
        *v += 1;
    }
    assert_eq!(set.get(e), Some(&6));
}

#[test]
fn registry_hands_out_ids_in_registration_order() {
    let mut registry = ActionRegistry::new();
    assert_eq!(registry.register("MoveUp"), MOVE_UP);
    assert_eq!(registry.register("MoveDown"), MOVE_DOWN);
    assert_eq!(registry.register("MoveLeft"), MOVE_LEFT);
    assert_eq!(registry.register("MoveRight"), MOVE_RIGHT);
    // Re-registration returns the existing id.
    assert_eq!(registry.register("MoveDown"), MOVE_DOWN);
    assert_eq!(registry.get_id("MoveLeft"), Some(MOVE_LEFT));
    assert_eq!(registry.get_id("Jump"), None);
    assert_eq!(registry.register("Jump"), 4);
}

#[test]
fn clamp_i16_saturates_at_the_bounds() {
    assert_eq!(clamp_i16(0), 0);
    assert_eq!(clamp_i16(1234), 1234);
    assert_eq!(clamp_i16(-1234), -1234);
    assert_eq!(clamp_i16(i16::MAX as i64), i16::MAX);
    assert_eq!(clamp_i16(i16::MAX as i64 + 1), i16::MAX);
    assert_eq!(clamp_i16(i16::MIN as i64), i16::MIN);
    assert_eq!(clamp_i16(i16::MIN as i64 - 1), i16::MIN);
    assert_eq!(clamp_i16(i64::MAX), i16::MAX);
    assert_eq!(clamp_i16(i64::MIN), i16::MIN);
}

#[test]
fn digital_masks_answer_per_action() {
    let mask = (1u64 << MOVE_UP) | (1u64 << MOVE_RIGHT);
    assert!(mask_is_active(mask, MOVE_UP));
    assert!(!mask_is_active(mask, MOVE_DOWN));
    assert!(mask_is_active(mask, MOVE_RIGHT));
    // Ids past the mask width are never active.
    assert!(!mask_is_active(u64::MAX, 64));
    assert!(!mask_is_active(u64::MAX, ACTION_NOT_FOUND));
}

#[test]
fn default_action_signal_is_inert() {
    let signal = ActionSignal::default();
    assert_eq!(signal.layer, PriorityLayer::Ambient);
    assert_eq!(signal.action_id, ACTION_NOT_FOUND);
    assert!(!signal.active);
}

#[test]
fn default_arbiter_layers_match_the_stock_stack() {
    let layers: Vec<LayerConfig> = InputDefaults::default_arbiter_layers();
    assert_eq!(layers.len(), 4);
    assert_eq!(layers[0].layer, PriorityLayer::Reflex);
    assert_eq!(layers[0].allowed_mask_when_active, 0);
    assert!(layers[0].lock_on_activation);
    assert_eq!(layers[0].lock_frames_on_activation, 30);
    assert_eq!(layers[1].layer, PriorityLayer::Cutscene);
    assert_eq!(layers[1].allowed_mask_when_active, 0);
    assert!(!layers[1].lock_on_activation);
    assert_eq!(layers[2].layer, PriorityLayer::Control);
    assert_eq!(layers[2].allowed_mask_when_active, MASK_ALL);
    assert_eq!(layers[3].layer, PriorityLayer::Ambient);
    assert_eq!(layers[3].allowed_mask_when_active, MASK_ALL);
    let runtime = LayerRuntimeState::default();
    assert_eq!(runtime.lock_frames_remaining, 0);
    assert_eq!(runtime.locked_permission_mask, 0);
}

#[test]
fn movement_mask_covers_the_canonical_actions() {
    assert_eq!(MASK_MOVE, 0b1111);
    for id in [MOVE_UP, MOVE_DOWN, MOVE_LEFT, MOVE_RIGHT] {
        assert!(mask_is_active(MASK_MOVE, id));
    }
    let _marker = CPlayer;
}

#[test]
fn decimal_rendering_matches_std() {
    for n in [0u64, 7, 10, 42, 1999, 1_678_822, u64::MAX] {
        assert_eq!(u64_to_string(n), n.to_string());
    }
}

#[test]
fn unique_copy_names_carry_the_timestamp() {
    assert_eq!(
        unique_copy_name("game_plugin", "dll", 1_678_822),
        "game_plugin_loaded_1678822.dll"
    );
    assert_eq!(unique_copy_name("libgame", "so", 0), "libgame_loaded_0.so");
}

#[test]
fn frame_graph_writes_before_it_reads() {
    let desc = frame_graph_desc();
    assert_eq!(desc.resources.len(), 2);
    assert_eq!(desc.resources[0].id, ResourceId(0));
    assert_eq!(desc.resources[0].name, "SceneColor");
    assert_eq!(desc.resources[0].kind, ResourceKind::Color);
    assert_eq!(desc.resources[0].alias_group, Some(0));
    assert_eq!(desc.resources[1].name, "Backbuffer");
    assert_eq!(desc.resources[1].alias_group, None);
    assert_eq!(desc.passes.len(), 3);
    assert_eq!(desc.passes[0].kind, PassKind::Sprite);
    assert_eq!(desc.passes[1].kind, PassKind::SceneToBackbuffer);
    assert_eq!(desc.passes[2].kind, PassKind::Gui);
    // Every resource that is read was written by an earlier pass or the
    // same pass.
    for (i, pass) in desc.passes.iter().enumerate() {
        for read in pass.reads.iter() {
            let written_before = desc.passes[..=i]
                .iter()
                .any(|p| p.writes.iter().any(|w| w == read));
            assert!(written_before, "pass {} reads an unwritten resource", i);
        }
    }
    // The stock graph is structurally sound.
    assert_eq!(validate_graph(&desc), Ok(()));
}

fn resource(id: u32, alias_group: Option<u32>) -> ResourceDesc {
    ResourceDesc {
        id: ResourceId(id),
        name: "resource",
        kind: ResourceKind::Color,
        alias_group,
    }
}

fn pass(reads: Vec<u32>, writes: Vec<u32>) -> PassDesc {
    PassDesc {
        name: "pass",
        kind: PassKind::Sprite,
        reads: reads.into_iter().map(ResourceId).collect(),
        writes: writes.into_iter().map(ResourceId).collect(),
    }
}

#[test]
fn validation_rejects_duplicate_resource_ids() {
    let desc = FrameGraphDesc {
        resources: vec![resource(0, None), resource(0, None)],
        passes: vec![],
    };
    assert_eq!(
        validate_graph(&desc),
        Err(GraphError::DuplicateResource(ResourceId(0)))
    );
}

#[test]
fn validation_rejects_unknown_resources() {
    let desc = FrameGraphDesc {
        resources: vec![resource(0, None)],
        passes: vec![pass(vec![], vec![0]), pass(vec![7], vec![])],
    };
    assert_eq!(
        validate_graph(&desc),
        Err(GraphError::UnknownResource {
            pass: 1,
            id: ResourceId(7)
        })
    );
}

#[test]
fn validation_rejects_a_read_before_the_first_write() {
    let desc = FrameGraphDesc {
        resources: vec![resource(0, None)],
        passes: vec![pass(vec![0], vec![]), pass(vec![], vec![0])],
    };
    assert_eq!(
        validate_graph(&desc),
        Err(GraphError::ReadBeforeWrite {
            id: ResourceId(0),
            read_pass: 0,
            write_pass: 1
        })
    );
}

#[test]
fn validation_rejects_overlapping_alias_lifetimes() {
    // Both group members live during pass 1.
    let desc = FrameGraphDesc {
        resources: vec![resource(0, Some(3)), resource(1, Some(3))],
        passes: vec![
            pass(vec![], vec![0]),
            pass(vec![0], vec![1]),
            pass(vec![1], vec![]),
        ],
    };
    assert_eq!(
        validate_graph(&desc),
        Err(GraphError::AliasOverlap {
            group: 3,
            first: ResourceId(0),
            second: ResourceId(1)
        })
    );
}

#[test]
fn validation_accepts_disjoint_alias_lifetimes() {
    // The first member dies in pass 1; the second is born in pass 2.
    let desc = FrameGraphDesc {
        resources: vec![resource(0, Some(3)), resource(1, Some(3)), resource(2, None)],
        passes: vec![
            pass(vec![], vec![0]),
            pass(vec![0], vec![2]),
            pass(vec![2], vec![1]),
            pass(vec![1], vec![]),
        ],
    };
    assert_eq!(validate_graph(&desc), Ok(()));
}
