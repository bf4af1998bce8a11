use purgatory_client::debug::agent_log::{EmitGate, EMIT_SLOTS};
use purgatory_client::debug::camera::CameraClampReason;
use purgatory_client::debug::collision_history::{
    CollisionHistory, DiscSubject, COLLISION_HISTORY_CAP,
};
use purgatory_client::headwear::{cell_origin_px, clamp_cell, ATLAS_PX, CELL_COUNT, SPRITE_PX};
use purgatory_client::ids::{EntityId, WireEntityId};
use purgatory_client::interp::{unique_poses, EntityTransformSpan, PresentSample};
use purgatory_client::jitter::CameraJitterMode;

#[test]
fn emit_gate_limits_each_slot_independently() {
    let mut gate = EmitGate::new();
    assert!(gate.should_emit(0, 100, 1_000));
    assert!(!gate.should_emit(0, 100, 1_050));
    assert!(gate.should_emit(1, 100, 1_050));
    assert!(gate.should_emit(0, 100, 1_100));
    // A clock that went backwards counts as no time elapsed.
    assert!(!gate.should_emit(0, 100, 900));
    assert!(gate.should_emit(0, 0, 900));
    // Slots past the table are never limited.
    assert!(gate.should_emit(EMIT_SLOTS, 1_000_000, 0));
    assert!(gate.should_emit(EMIT_SLOTS + 3, 1_000_000, 0));
    // A fresh slot compares against time zero.
    assert!(!gate.should_emit(3, 100, 50));
}

#[test]
fn camera_clamp_reason_classification() {
    assert_eq!(CameraClampReason::default(), CameraClampReason::NoTarget);
    assert_eq!(
        CameraClampReason::classify(false, true, true),
        CameraClampReason::BoundsOnly
    );
    assert_eq!(
        CameraClampReason::classify(true, false, true),
        CameraClampReason::NoTarget
    );
    assert_eq!(
        CameraClampReason::classify(true, true, true),
        CameraClampReason::ClampedToBounds
    );
    assert_eq!(
        CameraClampReason::classify(true, true, false),
        CameraClampReason::Follow
    );
}

#[test]
fn collision_history_keeps_the_newest_events_newest_first() {
    let mut history: CollisionHistory<u64> = CollisionHistory::default();
    assert_eq!(history.len(), 0);
    assert_eq!(history.latest(), None);
    assert!(history.newest_first().is_empty());
    for tick in 1..=5u64 {
        history.push(tick);
    }
    assert_eq!(history.len(), 5);
    assert_eq!(history.latest(), Some(5));
    assert_eq!(history.newest_first(), vec![5, 4, 3, 2, 1]);
    for tick in 6..=40u64 {
        history.push(tick);
    }
    assert_eq!(history.len(), COLLISION_HISTORY_CAP);
    assert_eq!(history.latest(), Some(40));
    let expected: Vec<u64> = (25..=40u64).rev().collect();
    assert_eq!(history.newest_first(), expected);
    history.clear();
    assert_eq!(history.len(), 0);
    assert_eq!(history.latest(), None);
    history.push(7);
    assert_eq!(history.newest_first(), vec![7]);
    assert_eq!(DiscSubject::default(), DiscSubject::Player);
}

#[test]
fn headwear_cells_clamp_and_tile_the_atlas() {
    assert_eq!(CELL_COUNT, 4);
    assert_eq!(ATLAS_PX, SPRITE_PX * 2);
    assert_eq!(clamp_cell(0), 0);
    assert_eq!(clamp_cell(3), 3);
    assert_eq!(clamp_cell(9), 3);
    assert_eq!(cell_origin_px(0), (0, 0));
    assert_eq!(cell_origin_px(1), (256, 0));
    assert_eq!(cell_origin_px(2), (0, 256));
    assert_eq!(cell_origin_px(3), (256, 256));
    assert_eq!(cell_origin_px(200), (256, 256));
}

#[test]
fn jitter_modes_name_themselves_and_gate_their_effects() {
    assert_eq!(CameraJitterMode::default(), CameraJitterMode::Normal);
    assert_eq!(CameraJitterMode::Normal.as_str(), "Normal");
    assert_eq!(CameraJitterMode::CameraFrozen.as_str(), "Camera Frozen");
    assert!(CameraJitterMode::CameraFrozen.freeze_camera());
    assert!(!CameraJitterMode::Normal.freeze_camera());
    assert!(CameraJitterMode::PresentationRawPrediction.use_raw_presentation());
    assert!(!CameraJitterMode::PresentationSmoothed.use_raw_presentation());
    assert!(CameraJitterMode::CameraFollowRawPrediction.follow_raw_prediction());
    assert!(!CameraJitterMode::CameraFollowPresented.follow_raw_prediction());
}

fn samples(list: &[(u64, bool)]) -> Vec<PresentSample> {
    list.iter()
        .map(|&(tick, same_as_previous)| PresentSample {
            tick,
            same_as_previous,
        })
        .collect()
}

#[test]
fn padded_cadence_copies_collapse_to_distinct_poses() {
    // Poses at 10 and 12 each padded by a +1 copy.
    let s = samples(&[(10, false), (11, true), (12, false), (13, true)]);
    assert_eq!(unique_poses(&s), vec![(10, 0), (12, 2)]);
}

#[test]
fn gapped_rest_is_restamped_with_last_hold_tick() {
    // A pose held across a gap (10 → 14) is restamped with the last hold
    // tick once the next pose starts.
    let s = samples(&[(10, false), (14, true), (16, true), (18, false)]);
    assert_eq!(unique_poses(&s), vec![(16, 0), (18, 3)]);
    // Consecutive +1 copies keep the first tick.
    let t = samples(&[(10, false), (11, true), (12, false)]);
    assert_eq!(unique_poses(&t), vec![(10, 0), (12, 2)]);
    // The first sample is a pose even when flagged.
    let u = samples(&[(5, true)]);
    assert_eq!(unique_poses(&u), vec![(5, 0)]);
}

#[test]
fn transform_span_summarizes_recent_distinct_ticks() {
    let empty = EntityTransformSpan::from_unique(&[]);
    assert_eq!(empty.unique_count, 0);
    assert_eq!(empty.oldest_tick, None);
    assert_eq!(empty.newest_tick, None);
    assert_eq!(empty.last_gap, None);
    assert_eq!(empty.ticks_len, 0);
    assert_eq!(empty.ticks, [0; 8]);
    let poses: Vec<(u64, usize)> = (0..10).map(|i| (100 + 2 * i as u64, i)).collect();
    let span = EntityTransformSpan::from_unique(&poses);
    assert_eq!(span.unique_count, 10);
    assert_eq!(span.oldest_tick, Some(100));
    assert_eq!(span.newest_tick, Some(118));
    assert_eq!(span.last_gap, Some(2));
    assert_eq!(span.ticks_len, 8);
    assert_eq!(span.ticks, [104, 106, 108, 110, 112, 114, 116, 118]);
    let two = EntityTransformSpan::from_unique(&[(9, 0), (5, 1)]);
    assert_eq!(two.last_gap, Some(0));
    assert_eq!(two.ticks, [9, 5, 0, 0, 0, 0, 0, 0]);
    assert_eq!(two.ticks_len, 2);
    let d = EntityTransformSpan::default();
    assert_eq!(d.unique_count, 0);
}

#[test]
fn id_labels_are_index_colon_generation() {
    assert_eq!(WireEntityId { index: 12, generation: 1 }.label(), "12:1");
    assert_eq!(EntityId::from_raw(0, 4_294_967_295).label(), "0:4294967295");
}
