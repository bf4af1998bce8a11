use purgatory_client::debug::capture::gameplay_receives_keyboard;
use purgatory_client::input::{map_key, Action, ActionState, GameKey, MoveAxis};
use purgatory_client::lifecycle::ClientScreen;

#[test]
fn development_keys_map_to_actions() {
    assert_eq!(map_key(GameKey::KeyA), Some(Action::MoveLeft));
    assert_eq!(map_key(GameKey::ArrowLeft), Some(Action::MoveLeft));
    assert_eq!(map_key(GameKey::KeyD), Some(Action::MoveRight));
    assert_eq!(map_key(GameKey::ArrowRight), Some(Action::MoveRight));
    assert_eq!(map_key(GameKey::KeyS), Some(Action::MoveDown));
    assert_eq!(map_key(GameKey::ArrowDown), Some(Action::MoveDown));
    assert_eq!(map_key(GameKey::Space), Some(Action::Jump));
    assert_eq!(map_key(GameKey::KeyE), Some(Action::Interact));
    assert_eq!(map_key(GameKey::KeyJ), Some(Action::BasicStrike));
    assert_eq!(map_key(GameKey::ArrowUp), Some(Action::ActivatePortal));
    // W has no binding; it reaches the library as an unbound key.
    assert_eq!(map_key(GameKey::Unbound), None);
    assert_eq!(map_key(GameKey::Backquote), None);
}

#[test]
fn interact_edge_fires_once_until_consumed() {
    let mut state = ActionState::default();
    state.set_action(Action::Interact, true, false);
    state.set_action(Action::Interact, true, true);
    assert!(state.consume_interact_edge());
    assert!(!state.consume_interact_edge());
    state.set_action(Action::Interact, false, false);
    assert!(!state.consume_interact_edge());
    state.set_action(Action::Interact, true, false);
    assert!(state.consume_interact_edge());
}

#[test]
fn ability_edge_fires_once_until_consumed() {
    let mut state = ActionState::default();
    state.set_action(Action::BasicStrike, true, false);
    state.set_action(Action::BasicStrike, true, true);
    assert!(state.consume_ability_edge());
    assert!(!state.consume_ability_edge());
    state.set_action(Action::BasicStrike, false, false);
    assert!(!state.consume_ability_edge());
    state.set_action(Action::BasicStrike, true, false);
    assert!(state.consume_ability_edge());
}

#[test]
fn portal_held_does_not_retrigger_until_release() {
    let mut state = ActionState::default();
    state.set_action(Action::ActivatePortal, true, false);
    assert!(state.consume_portal_edge());
    assert!(state.portal_held());
    state.set_action(Action::ActivatePortal, true, false);
    assert!(
        !state.consume_portal_edge(),
        "held Up must not synthesize another edge"
    );
    state.set_action(Action::ActivatePortal, false, false);
    assert!(!state.portal_held());
    assert!(!state.consume_portal_edge());
    state.set_action(Action::ActivatePortal, true, false);
    assert!(state.consume_portal_edge());
}

#[test]
fn consume_tick_input_does_not_eat_interact_edge() {
    let mut state = ActionState::default();
    state.set_action(Action::Interact, true, false);
    let _ = state.consume_tick_input();
    assert!(state.consume_interact_edge());
}

#[test]
fn consume_tick_input_does_not_eat_portal_edge() {
    let mut state = ActionState::default();
    state.set_action(Action::ActivatePortal, true, false);
    let _ = state.consume_tick_input();
    assert!(state.consume_portal_edge());
}

#[test]
fn jump_edge_fires_once_per_press() {
    let mut state = ActionState::default();
    state.set_action(Action::Jump, true, false);
    state.set_action(Action::Jump, true, true);
    let first = state.consume_tick_input();
    let second = state.consume_tick_input();
    assert!(first.jump_pressed);
    assert!(!second.jump_pressed);
}

#[test]
fn held_move_is_state_not_edge() {
    let mut state = ActionState::default();
    state.set_action(Action::MoveRight, true, false);
    let a = state.consume_tick_input();
    let b = state.consume_tick_input();
    assert_eq!(a.move_axis, 1);
    assert_eq!(b.move_axis, 1);
    state.set_action(Action::MoveRight, false, false);
    assert_eq!(state.consume_tick_input().move_axis, 0);
}

#[test]
fn discard_locked_edges_keeps_held_movement() {
    let mut state = ActionState::default();
    state.set_action(Action::MoveRight, true, false);
    state.set_action(Action::Jump, true, false);
    state.set_action(Action::Interact, true, false);
    state.set_action(Action::ActivatePortal, true, false);
    state.discard_locked_edges();
    let input = state.consume_tick_input();
    assert_eq!(input.move_axis, 1);
    assert!(!input.jump_pressed, "locked jump must not replay");
    assert!(!state.consume_interact_edge());
    assert!(!state.consume_portal_edge());
    assert!(state.portal_held());
    let held = state.consume_tick_input();
    assert_eq!(held.move_axis, 1, "held Right must resume after unlock");
}

#[test]
fn discard_locked_edges_does_not_arm_held_up() {
    let mut state = ActionState::default();
    state.set_action(Action::ActivatePortal, true, false);
    assert!(state.consume_portal_edge());
    state.discard_locked_edges();
    assert!(
        !state.consume_portal_edge(),
        "held Up across a barrier must not synthesize an edge"
    );
    state.set_action(Action::ActivatePortal, false, false);
    state.set_action(Action::ActivatePortal, true, false);
    assert!(state.consume_portal_edge());
}

#[test]
fn down_held_passes_to_player_input() {
    let mut state = ActionState::default();
    state.set_action(Action::MoveDown, true, false);
    let input = state.consume_tick_input();
    assert!(input.down_held);
    assert!(!input.jump_pressed);
}

#[test]
fn clear_drops_held_gameplay_state() {
    let mut state = ActionState::default();
    state.set_action(Action::MoveRight, true, false);
    state.set_action(Action::Jump, true, false);
    state.clear();
    let input = state.consume_tick_input();
    assert_eq!(input.move_axis, 0);
    assert!(!input.jump_pressed);
}

#[test]
fn focus_loss_releases_held_right_to_neutral() {
    let mut state = ActionState::default();
    state.set_action(Action::MoveRight, true, false);
    assert_eq!(state.move_axis(), MoveAxis::Right);
    assert!(state.has_held_input());
    state.release_on_focus_loss();
    assert_eq!(state.move_axis(), MoveAxis::Neutral);
    assert!(!state.has_held_input());
    assert!(!state.down_held());
    assert!(!state.jump_pending());
}

#[test]
fn focus_loss_releases_held_left_to_neutral() {
    let mut state = ActionState::default();
    state.set_action(Action::MoveLeft, true, false);
    assert_eq!(state.move_axis(), MoveAxis::Left);
    state.release_on_focus_loss();
    assert_eq!(state.move_axis(), MoveAxis::Neutral);
}

#[test]
fn focus_loss_clears_jump_and_down() {
    let mut state = ActionState::default();
    state.set_action(Action::Jump, true, false);
    state.set_action(Action::MoveDown, true, false);
    assert!(state.down_held());
    assert!(state.jump_pending() || state.has_held_input());
    state.release_on_focus_loss();
    assert!(!state.down_held());
    assert!(!state.jump_pending());
    assert!(!state.has_held_input());
    let input = state.consume_tick_input();
    assert!(!input.jump_pressed);
    assert!(!input.down_held);
    assert_eq!(input.move_axis, 0);
}

#[test]
fn overlay_open_policy_keeps_held_movement() {
    let mut state = ActionState::default();
    state.set_action(Action::MoveRight, true, false);
    assert!(gameplay_receives_keyboard(true, false, true));
    assert_eq!(state.consume_tick_input().move_axis, 1);
}

#[test]
fn text_like_focus_does_not_start_new_gameplay_presses() {
    let mut state = ActionState::default();
    assert!(!gameplay_receives_keyboard(true, true, true));
    assert_eq!(state.consume_tick_input().move_axis, 0);
    assert!(!state.consume_tick_input().jump_pressed);
    assert!(gameplay_receives_keyboard(true, true, false));
    state.set_action(Action::MoveRight, false, false);
    assert_eq!(state.consume_tick_input().move_axis, 0);
}

#[test]
fn connection_screen_ignores_gameplay_actions() {
    let mut state = ActionState::default();
    let screen = ClientScreen::Connection;
    if matches!(screen, ClientScreen::Game) {
        state.set_action(Action::MoveLeft, true, false);
        state.set_action(Action::MoveRight, true, false);
        state.set_action(Action::Jump, true, false);
        state.set_action(Action::MoveDown, true, false);
    }
    let input = state.consume_tick_input();
    assert_eq!(input.move_axis, 0);
    assert!(!input.jump_pressed);
    assert!(!input.down_held);
}

#[test]
fn connection_to_game_clears_held_jump_edge() {
    let mut state = ActionState::default();
    state.set_action(Action::Jump, true, false);
    state.set_action(Action::MoveRight, true, false);
    state.clear();
    let input = state.consume_tick_input();
    assert!(!input.jump_pressed);
    assert_eq!(input.move_axis, 0);
}

#[test]
fn game_input_behavior_unchanged_after_clear() {
    let mut state = ActionState::default();
    state.set_action(Action::MoveRight, true, false);
    state.set_action(Action::Jump, true, false);
    let first = state.consume_tick_input();
    assert_eq!(first.move_axis, 1);
    assert!(first.jump_pressed);
    state.set_action(Action::Jump, false, false);
    state.set_action(Action::Jump, true, false);
    let second = state.consume_tick_input();
    assert!(second.jump_pressed);
    assert_eq!(second.move_axis, 1);
}

#[test]
fn both_directions_held_is_neutral_and_keys_route_through_bindings() {
    let mut state = ActionState::default();
    state.apply_key(GameKey::KeyA, true, false);
    state.apply_key(GameKey::ArrowRight, true, false);
    assert_eq!(state.move_axis(), MoveAxis::Neutral);
    assert_eq!(state.consume_tick_input().move_axis, 0);
    state.apply_key(GameKey::KeyA, false, false);
    assert_eq!(state.move_axis(), MoveAxis::Right);
    state.apply_key(GameKey::Unbound, true, false);
    state.apply_key(GameKey::Backquote, true, false);
    assert_eq!(state.consume_tick_input().move_axis, 1);
    state.apply_key(GameKey::Space, true, false);
    assert!(state.jump_pending());
    state.apply_key(GameKey::Space, true, true);
    assert!(state.consume_tick_input().jump_pressed);
    assert!(!state.consume_tick_input().jump_pressed);
}
