use purgatory_client::debug::ui_state::{
    arm_master_on_gizmo_enable, note_channel_flash, reset_action_flash, reset_action_help,
    reset_action_label, reset_player_uses_replica, AnimationProofMode, DevActionFlash,
    DEV_ACTION_FLASH_MS, RESET_TO_SPAWN_FLASH, RESET_TO_SPAWN_HELP, RESET_TO_SPAWN_LABEL,
};
use purgatory_client::debug::viz::append_debug_gizmos;

#[test]
fn enabling_a_world_gizmo_arms_the_master_gate() {
    let mut master = false;
    arm_master_on_gizmo_enable(&mut master, false, true);
    assert!(master);
    arm_master_on_gizmo_enable(&mut master, true, false);
    assert!(master, "unchecking a child must not mute remaining gizmos");
}

#[test]
fn reset_path_follows_replica_presence_not_prediction_active() {
    assert!(reset_player_uses_replica(true));
    assert!(!reset_player_uses_replica(false));
    assert_eq!(reset_action_label(true), "Reanchor Prediction");
    assert_eq!(reset_action_label(false), RESET_TO_SPAWN_LABEL);
    assert!(reset_action_help(true).contains("authoritative replica"));
    assert!(reset_action_help(false).contains("spawn"));
    assert_eq!(reset_action_flash(true), "REANCHOR");
    assert_eq!(reset_action_flash(false), RESET_TO_SPAWN_FLASH);
}

#[test]
fn toast_strings_are_ascii() {
    assert!(
        RESET_TO_SPAWN_FLASH.bytes().all(|b| b.is_ascii()),
        "egui default font has no Unicode arrows"
    );
    assert!(reset_action_flash(true).bytes().all(|b| b.is_ascii()));
    assert!(reset_action_flash(false).bytes().all(|b| b.is_ascii()));
    let channel = format!("CHANNEL {} -> {}", 0, 1);
    assert!(channel.bytes().all(|b| b.is_ascii()), "{channel}");
}

#[test]
fn master_gate_is_left_alone_when_no_child_turns_on() {
    let mut master = false;
    arm_master_on_gizmo_enable(&mut master, false, false);
    assert!(!master);
    arm_master_on_gizmo_enable(&mut master, true, true);
    assert!(!master);
    let mut on = true;
    arm_master_on_gizmo_enable(&mut on, true, false);
    assert!(on);
}

#[test]
fn reset_texts_for_offline_spawn_path() {
    assert_eq!(reset_action_help(false), RESET_TO_SPAWN_HELP);
    assert_eq!(RESET_TO_SPAWN_LABEL, "Reset to Spawn Point");
    assert_eq!(RESET_TO_SPAWN_FLASH, "RESET TO SPAWN POINT");
}

#[test]
fn animation_proof_modes_have_names() {
    assert_eq!(AnimationProofMode::default(), AnimationProofMode::ManualA1);
    assert_eq!(AnimationProofMode::ManualA1.as_str(), "Manual A1");
    assert_eq!(AnimationProofMode::PlaybackA2.as_str(), "Playback A2");
}

#[derive(Clone, Copy, Debug, PartialEq)]
struct Quad {
    color: [f32; 4],
}

const COLLIDER_TINT: [f32; 4] = [0.2, 0.9, 0.4, 0.6];

#[test]
fn append_debug_gizmos_keeps_gizmos_when_over_budget() {
    let filler = Quad {
        color: [0.0, 0.0, 0.0, 1.0],
    };
    let gizmo = Quad {
        color: COLLIDER_TINT,
    };
    let mut world = vec![filler; 4];
    append_debug_gizmos(&mut world, vec![gizmo], 4);
    assert_eq!(world.len(), 4);
    assert!(
        world.iter().any(|q| q.color == COLLIDER_TINT),
        "gizmos must win the last slots"
    );
}

#[test]
fn gizmos_append_when_under_budget() {
    let mut world = vec![1u32, 2];
    append_debug_gizmos(&mut world, vec![7, 8], 10);
    assert_eq!(world, vec![1, 2, 7, 8]);
    let mut full = vec![1u32, 2, 3];
    append_debug_gizmos(&mut full, vec![7, 8], 3);
    assert_eq!(full, vec![3, 7, 8]);
    let mut crowded = vec![1u32, 2];
    append_debug_gizmos(&mut crowded, vec![7, 8, 9], 2);
    assert_eq!(crowded, vec![7, 8]);
}

#[test]
fn dev_action_flash_is_observable() {
    let now = 1_000;
    let mut flash = DevActionFlash::new();
    assert!(!flash.center_toast_live(now));
    flash.note_dev_action_flash("REANCHOR", now);
    assert_eq!(flash.text, "REANCHOR");
    assert!(flash.center_toast_live(now));
    assert!(flash.until_ms.is_some_and(|until| until > now));
}

#[test]
fn dev_action_flash_expires() {
    let mut flash = DevActionFlash::new();
    flash.note_dev_action_flash("REANCHOR", 500);
    assert_eq!(flash.until_ms, Some(500 + DEV_ACTION_FLASH_MS));
    assert!(flash.center_toast_live(500 + DEV_ACTION_FLASH_MS - 1));
    assert!(!flash.center_toast_live(500 + DEV_ACTION_FLASH_MS));
    flash.note_dev_action_flash("", 600);
    assert!(!flash.center_toast_live(601));
}

#[test]
fn channel_change_flashes_once_known() {
    let mut channel = None;
    let mut epoch = None;
    let mut flash = DevActionFlash::new();
    note_channel_flash(&mut channel, &mut epoch, 0, 7, &mut flash, 100);
    assert_eq!(channel, Some(0));
    assert_eq!(epoch, Some(7));
    assert!(!flash.center_toast_live(100));
    note_channel_flash(&mut channel, &mut epoch, 0, 8, &mut flash, 200);
    assert!(!flash.center_toast_live(200));
    assert_eq!(epoch, Some(8));
    note_channel_flash(&mut channel, &mut epoch, 1, 9, &mut flash, 300);
    assert_eq!(flash.text, "CHANNEL 0 -> 1");
    assert!(flash.text.bytes().all(|b| b.is_ascii()));
    assert!(flash.center_toast_live(300));
    assert_eq!(channel, Some(1));
}
