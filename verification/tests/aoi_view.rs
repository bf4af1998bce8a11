use purgatory_client::debug::aoi_view::{
    band_label, compact_world_space_label, recent_note, replica_role_tag, role_of, semantic_label,
    world_space_labels_eligible, AoiBand, ReplicaLifecycleEvent, ReplicaLifecycleNote, ReplicaRole,
    RECENT_LIFECYCLE_TICKS,
};
use purgatory_client::ids::{ReplicatedKind, WireEntityId};

fn id(index: u32) -> WireEntityId {
    WireEntityId {
        index,
        generation: 1,
    }
}

#[test]
fn labels_distinguish_local_remote_player_and_kinds() {
    let local = id(12);
    let remote = id(13);
    assert_eq!(
        semantic_label(ReplicatedKind::Player, local, true),
        "PLAYER 12:1 · LOCAL"
    );
    assert_eq!(
        semantic_label(ReplicatedKind::Player, remote, false),
        "PLAYER 13:1 · REMOTE"
    );
    assert_eq!(
        semantic_label(ReplicatedKind::Interactable, id(19), false),
        "INTERACTABLE 19:1"
    );
    assert_eq!(
        semantic_label(ReplicatedKind::Portal, id(27), false),
        "PORTAL 27:1"
    );
    assert_eq!(
        role_of(ReplicatedKind::Player, false),
        ReplicaRole::RemotePlayer
    );
    assert_eq!(
        compact_world_space_label(ReplicaRole::LocalPlayer),
        "LOCAL PLAYER"
    );
    assert_eq!(
        compact_world_space_label(ReplicaRole::RemotePlayer),
        "REMOTE PLAYER"
    );
    assert_eq!(
        compact_world_space_label(ReplicaRole::Interactable),
        "INTERACTABLE"
    );
    assert_eq!(compact_world_space_label(ReplicaRole::Portal), "PORTAL");
}

#[test]
fn world_space_labels_visible_on_aligned_idle_map() {
    assert!(world_space_labels_eligible(true, true, false));
}

#[test]
fn world_space_labels_hidden_when_maps_unaligned() {
    assert!(!world_space_labels_eligible(false, false, false));
    assert!(!world_space_labels_eligible(false, true, false));
    assert!(!world_space_labels_eligible(false, false, true));
}

#[test]
fn world_space_labels_hidden_after_new_epoch_before_destination_ready() {
    assert!(
        !world_space_labels_eligible(false, false, false),
        "FadeOut/Hold with dest replica and old camera must not project labels"
    );
    assert!(
        !world_space_labels_eligible(true, false, false),
        "aligned geometry without DestinationReady/MembershipReady during a fade is not presentation-ready"
    );
}

#[test]
fn world_space_labels_visible_when_destination_ready_and_aligned() {
    assert!(world_space_labels_eligible(true, false, true));
}

#[test]
fn recent_note_reports_newest_event_within_window() {
    let a = id(4);
    let b = id(5);
    let notes = [
        ReplicaLifecycleNote {
            entity_id: a,
            tick: 100,
            event: ReplicaLifecycleEvent::Entered,
        },
        ReplicaLifecycleNote {
            entity_id: b,
            tick: 101,
            event: ReplicaLifecycleEvent::Entered,
        },
        ReplicaLifecycleNote {
            entity_id: a,
            tick: 104,
            event: ReplicaLifecycleEvent::Left,
        },
    ];
    assert_eq!(recent_note(a, &notes, 110), Some("Left"));
    assert_eq!(recent_note(b, &notes, 110), Some("Entered"));
    assert_eq!(recent_note(b, &notes, 101 + RECENT_LIFECYCLE_TICKS), Some("Entered"));
    assert_eq!(recent_note(b, &notes, 102 + RECENT_LIFECYCLE_TICKS), None);
    assert_eq!(recent_note(id(9), &notes, 110), None);
}

#[test]
fn band_labels_and_role_tags() {
    assert_eq!(band_label(AoiBand::InEnter), "Known · Enter AOI");
    assert_eq!(band_label(AoiBand::LeaveHysteresis), "Known · Leave band");
    assert_eq!(band_label(AoiBand::OutsideLeave), "Known · outside leave");
    assert_eq!(replica_role_tag(ReplicaRole::LocalPlayer), 0);
    assert_eq!(replica_role_tag(ReplicaRole::RemotePlayer), 1);
    assert_eq!(replica_role_tag(ReplicaRole::Interactable), 2);
    assert_eq!(replica_role_tag(ReplicaRole::Portal), 3);
    assert_eq!(replica_role_tag(ReplicaRole::Npc), 4);
    assert_eq!(role_of(ReplicatedKind::Player, true), ReplicaRole::LocalPlayer);
    assert_eq!(role_of(ReplicatedKind::Npc, false), ReplicaRole::Npc);
    assert_eq!(semantic_label(ReplicatedKind::Npc, id(3), false), "NPC 3:1");
}
