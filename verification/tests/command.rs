use purgatory_client::debug::command::{
    DebugCommand, DebugRequests, TuningSample, DEBUG_TUNING_SEND_INTERVAL_MS,
};
use purgatory_client::display::RenderScale;

const DEBUG_MOVE_SPEED_DEFAULT: f32 = 4.0;
const DEBUG_MOVE_SPEED_MIN: f32 = 0.5;
const DEBUG_MOVE_SPEED_MAX: f32 = 24.0;
const DEBUG_JUMP_SPEED_DEFAULT: f32 = 13.0;
const DEBUG_JUMP_SPEED_MIN: f32 = 1.0;
const DEBUG_JUMP_SPEED_MAX: f32 = 30.0;

#[derive(Clone, Copy, Debug, PartialEq, Eq)]
enum WorldMsaa {
    Off,
}

type Command = DebugCommand<u32, u64, WorldMsaa>;

/// The overlay side of the debug state: sliders and view toggles, with the
/// request queue the library drains.
struct Ui {
    show_skeleton: bool,
    time_scale: f32,
    debug_move_speed: f32,
    debug_jump_speed: f32,
    requests: DebugRequests<f32, u64, WorldMsaa>,
}

impl Default for Ui {
    fn default() -> Self {
        Ui {
            show_skeleton: false,
            time_scale: 1.0,
            debug_move_speed: DEBUG_MOVE_SPEED_DEFAULT,
            debug_jump_speed: DEBUG_JUMP_SPEED_DEFAULT,
            requests: DebugRequests::new(),
        }
    }
}

fn sanitize(speed: f32, default: f32, min: f32, max: f32) -> f32 {
    if !speed.is_finite() {
        return default;
    }
    speed.clamp(min, max)
}

fn sample(value: f32, last_sent: Option<f32>) -> TuningSample<f32> {
    TuningSample {
        value,
        pending: last_sent != Some(value),
        centi: (value * 100.0).round() as u16,
    }
}

impl Ui {
    fn request_debug_move_speed_reset(&mut self) {
        self.debug_move_speed = DEBUG_MOVE_SPEED_DEFAULT;
        self.requests.request_debug_move_speed_reset();
    }

    fn drain_commands_at(&mut self, now_ms: u64) -> Vec<Command> {
        let speed = sanitize(
            self.debug_move_speed,
            DEBUG_MOVE_SPEED_DEFAULT,
            DEBUG_MOVE_SPEED_MIN,
            DEBUG_MOVE_SPEED_MAX,
        );
        let jump = sanitize(
            self.debug_jump_speed,
            DEBUG_JUMP_SPEED_DEFAULT,
            DEBUG_JUMP_SPEED_MIN,
            DEBUG_JUMP_SPEED_MAX,
        );
        let speed = sample(speed, self.requests.last_sent_debug_move_speed);
        let jump = sample(jump, self.requests.last_sent_debug_jump_speed);
        self.requests.drain_commands_at(
            now_ms,
            speed,
            jump,
            DEBUG_MOVE_SPEED_DEFAULT,
            DEBUG_JUMP_SPEED_DEFAULT,
        )
    }
}

#[test]
fn drain_takes_oneshots_and_leaves_view_toggles() {
    let mut ui = Ui {
        show_skeleton: true,
        time_scale: 0.5,
        requests: DebugRequests {
            network_connect: true,
            request_channel: Some(1),
            request_presentation_attack: true,
            center_on_player: true,
            requested_render_scale: Some(RenderScale::p200()),
            requested_world_msaa: Some(WorldMsaa::Off),
            ..DebugRequests::new()
        },
        ..Default::default()
    };
    let commands = ui.drain_commands_at(1_000);
    assert!(commands.contains(&DebugCommand::Connect));
    assert!(commands.contains(&DebugCommand::SetChannel(1)));
    assert!(commands.contains(&DebugCommand::PresentationAttack));
    assert!(commands.contains(&DebugCommand::CenterOnPlayer));
    assert!(commands.contains(&DebugCommand::SetRenderScale(RenderScale::p200())));
    assert!(commands.contains(&DebugCommand::SetWorldMsaa(WorldMsaa::Off)));
    assert!(!ui.requests.network_connect);
    assert!(ui.requests.request_channel.is_none());
    assert!(!ui.requests.request_presentation_attack);
    assert!(!ui.requests.center_on_player);
    assert!(ui.requests.requested_render_scale.is_none());
    assert!(ui.requests.requested_world_msaa.is_none());
    assert!(ui.show_skeleton);
    assert!((ui.time_scale - 0.5).abs() < f32::EPSILON);
    assert!(ui.drain_commands_at(1_000).is_empty());
}

#[test]
fn rapid_tuning_changes_are_throttled_and_latest_value_is_retained() {
    let t0 = 1_000;
    let mut ui = Ui {
        debug_move_speed: 5.0,
        requests: DebugRequests {
            last_sent_debug_move_speed: Some(DEBUG_MOVE_SPEED_DEFAULT),
            last_sent_debug_jump_speed: Some(DEBUG_JUMP_SPEED_DEFAULT),
            ..DebugRequests::new()
        },
        ..Default::default()
    };

    assert_eq!(
        ui.drain_commands_at(t0),
        vec![DebugCommand::SetMoveSpeed(Some(500))]
    );
    ui.debug_move_speed = 6.0;
    ui.debug_move_speed = 7.0;
    assert!(ui.drain_commands_at(t0 + 1).is_empty());
    assert_eq!(
        ui.drain_commands_at(t0 + DEBUG_TUNING_SEND_INTERVAL_MS),
        vec![DebugCommand::SetMoveSpeed(Some(700))]
    );
}

#[test]
fn speed_and_jump_share_the_same_cadence_policy() {
    let t0 = 1_000;
    let mut ui = Ui {
        debug_move_speed: 5.0,
        debug_jump_speed: 14.0,
        requests: DebugRequests {
            last_sent_debug_move_speed: Some(DEBUG_MOVE_SPEED_DEFAULT),
            last_sent_debug_jump_speed: Some(DEBUG_JUMP_SPEED_DEFAULT),
            ..DebugRequests::new()
        },
        ..Default::default()
    };

    assert_eq!(
        ui.drain_commands_at(t0),
        vec![DebugCommand::SetMoveSpeed(Some(500))]
    );
    assert_eq!(
        ui.drain_commands_at(t0 + DEBUG_TUNING_SEND_INTERVAL_MS),
        vec![DebugCommand::SetJumpSpeed(Some(1_400))]
    );
}

#[test]
fn reset_bypasses_cadence_and_is_retained_as_authoritative_command() {
    let t0 = 1_000;
    let mut ui = Ui {
        debug_move_speed: 4.0,
        requests: DebugRequests {
            last_sent_debug_move_speed: Some(6.0),
            ..DebugRequests::new()
        },
        ..Default::default()
    };
    assert_eq!(
        ui.drain_commands_at(t0),
        vec![DebugCommand::SetMoveSpeed(Some(400))]
    );
    ui.request_debug_move_speed_reset();
    assert_eq!(
        ui.drain_commands_at(t0 + 1),
        vec![DebugCommand::SetMoveSpeed(None)]
    );
}

#[test]
fn drain_emits_requests_in_a_fixed_order() {
    let mut requests: DebugRequests<f32, u64, WorldMsaa> = DebugRequests {
        center_on_player: true,
        network_disconnect: true,
        network_connect: true,
        request_debug_equip: Some("equipment.debug.hat"),
        request_debug_equip_item: Some(42),
        request_debug_unequip_slot: Some(3),
        request_debug_unequip_all: true,
        request_animation_play: true,
        request_animation_pause: true,
        request_animation_reset: true,
        dump_jitter_trace: true,
        impairment_stall_ms: Some(250),
        reset_impairment_metrics: true,
        clear_network_history: true,
        request_presentation_hurt: true,
        debug_jump_speed_reset_requested: true,
        ..DebugRequests::new()
    };
    let idle = TuningSample { value: 4.0, pending: false, centi: 400 };
    let out: Vec<Command> = requests.drain_commands_at(0, idle, idle, 4.0, 13.0);
    assert_eq!(
        out,
        vec![
            DebugCommand::Connect,
            DebugCommand::Disconnect,
            DebugCommand::SetJumpSpeed(None),
            DebugCommand::PresentationHurt,
            DebugCommand::Equip("equipment.debug.hat"),
            DebugCommand::EquipItem(42),
            DebugCommand::UnequipSlot(3),
            DebugCommand::UnequipAll,
            DebugCommand::AnimationPlay,
            DebugCommand::AnimationPause,
            DebugCommand::AnimationReset,
            DebugCommand::DumpJitterTrace,
            DebugCommand::ImpairmentStall { ms: 250 },
            DebugCommand::ResetImpairmentMetrics,
            DebugCommand::ClearNetworkHistory,
            DebugCommand::CenterOnPlayer,
        ]
    );
    assert_eq!(requests.last_sent_debug_jump_speed, Some(13.0));
    assert_eq!(requests.debug_tuning_next_send_at, Some(DEBUG_TUNING_SEND_INTERVAL_MS));
    let again: Vec<Command> = requests.drain_commands_at(1, idle, idle, 4.0, 13.0);
    assert!(again.is_empty());
}

#[test]
fn tied_controls_take_turns_once_the_interval_passes() {
    let mut requests: DebugRequests<f32, u64, WorldMsaa> = DebugRequests::new();
    let speed = TuningSample { value: 5.0, pending: true, centi: 500 };
    let jump = TuningSample { value: 14.0, pending: true, centi: 1_400 };
    let first: Vec<Command> = requests.drain_commands_at(0, speed, jump, 4.0, 13.0);
    assert_eq!(first, vec![DebugCommand::SetMoveSpeed(Some(500))]);
    let early: Vec<Command> = requests.drain_commands_at(149, speed, jump, 4.0, 13.0);
    assert!(early.is_empty());
    let second: Vec<Command> = requests.drain_commands_at(150, speed, jump, 4.0, 13.0);
    assert_eq!(second, vec![DebugCommand::SetJumpSpeed(Some(1_400))]);
    let third: Vec<Command> = requests.drain_commands_at(300, speed, jump, 4.0, 13.0);
    assert_eq!(third, vec![DebugCommand::SetMoveSpeed(Some(500))]);
}
