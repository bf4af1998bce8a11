use purgatory_client::map_fade::{
    membership_banner, world_interaction_cleared_for_membership, ReadinessFlags, TransitionKind,
};

#[test]
fn membership_flags_require_session_close() {
    let mut flags = ReadinessFlags {
        observer_accepted: true,
        epoch_applied: true,
        self_baseline: true,
        local_seeded: true,
        old_replicas_cleared: true,
        presentation_matches: true,
        session_closed: false,
        ..ReadinessFlags::default()
    };
    assert!(!flags.membership_complete());
    assert!(flags
        .missing_csv(TransitionKind::Membership)
        .contains("session_closed"));
    flags.session_closed = true;
    assert!(flags.membership_complete());
}

#[test]
fn map_flags_do_not_require_session_closed() {
    let flags = ReadinessFlags {
        observer_accepted: true,
        epoch_applied: true,
        geometry_ready: true,
        self_baseline: true,
        local_seeded: true,
        prediction_synced: true,
        camera_ready: true,
        old_replicas_cleared: true,
        presentation_matches: true,
        session_closed: false,
    };
    assert!(flags.map_complete());
}

#[test]
fn missing_csv_lists_unset_flags_in_order() {
    let none = ReadinessFlags::default();
    assert_eq!(
        none.missing_csv(TransitionKind::MapLoad),
        "observer_accepted,epoch_applied,geometry_ready,self_baseline,local_seeded,prediction_synced,camera_ready,old_replicas_cleared,presentation_matches"
    );
    assert_eq!(
        none.missing_csv(TransitionKind::Membership),
        "observer_accepted,epoch_applied,self_baseline,local_seeded,old_replicas_cleared,presentation_matches,session_closed"
    );
    let partial = ReadinessFlags {
        observer_accepted: true,
        geometry_ready: true,
        camera_ready: true,
        ..ReadinessFlags::default()
    };
    assert_eq!(
        partial.missing_csv(TransitionKind::MapLoad),
        "epoch_applied,self_baseline,local_seeded,prediction_synced,old_replicas_cleared,presentation_matches"
    );
    let all = ReadinessFlags {
        observer_accepted: true,
        epoch_applied: true,
        geometry_ready: true,
        self_baseline: true,
        local_seeded: true,
        prediction_synced: true,
        camera_ready: true,
        old_replicas_cleared: true,
        presentation_matches: true,
        session_closed: true,
    };
    assert_eq!(all.missing_csv(TransitionKind::MapLoad), "");
    assert_eq!(all.missing_csv(TransitionKind::Membership), "");
    assert!(all.map_complete() && all.membership_complete());
}

#[test]
fn membership_banner_names_the_changed_component() {
    assert_eq!(membership_banner((1, 0, 0), (1, 1, 0)), "CHANNEL TRANSITION");
    assert_eq!(membership_banner((1, 0, 0), (1, 0, 2)), "INSTANCE TRANSITION");
    assert_eq!(membership_banner((1, 0, 0), (1, 1, 2)), "MEMBERSHIP TRANSITION");
    assert_eq!(membership_banner((1, 0, 0), (2, 1, 0)), "MEMBERSHIP TRANSITION");
}

#[test]
fn world_interaction_must_be_settled_before_membership_reveal() {
    assert!(world_interaction_cleared_for_membership("IDLE"));
    assert!(world_interaction_cleared_for_membership("CLOSED"));
    assert!(world_interaction_cleared_for_membership("REJECTED"));
    assert!(!world_interaction_cleared_for_membership("OPEN"));
    assert!(!world_interaction_cleared_for_membership("OPENING"));
    assert!(!world_interaction_cleared_for_membership("idle"));
    assert_eq!(TransitionKind::default(), TransitionKind::MapLoad);
}

// --- Fade phases under frame time ----------------------------------------

use purgatory_client::map_fade::{DestinationReady, FadePhase, MapFade, MembershipReady};

const MAP_FADE_OUT_SEC: f32 = 0.300;
const MAP_FADE_HOLD_SEC: f32 = 0.075;
const MAP_FADE_IN_SEC: f32 = 0.400;
const MEMBERSHIP_FADE_OUT_SEC: f32 = 0.200;
const MEMBERSHIP_FADE_HOLD_SEC: f32 = 0.050;
const MEMBERSHIP_FADE_IN_SEC: f32 = 0.250;
const READY_STALL_SEC: f32 = 5.0;

/// Frame-time clock around the library's phases.
struct Clock {
    fade: MapFade<[f32; 2]>,
    t: f32,
}

impl Clock {
    fn new() -> Self {
        Clock {
            fade: MapFade::new(),
            t: 0.0,
        }
    }

    fn timings(&self) -> (f32, f32, f32) {
        match self.fade.kind() {
            TransitionKind::MapLoad => (MAP_FADE_OUT_SEC, MAP_FADE_HOLD_SEC, MAP_FADE_IN_SEC),
            TransitionKind::Membership => (
                MEMBERSHIP_FADE_OUT_SEC,
                MEMBERSHIP_FADE_HOLD_SEC,
                MEMBERSHIP_FADE_IN_SEC,
            ),
        }
    }

    fn begin(&mut self, kind: TransitionKind, from: (u32, u32, u32), to: (u32, u32, u32), pose: Option<[f32; 2]>) -> bool {
        let began = self.fade.begin_transition(kind, from, to, pose);
        if began {
            self.t = 0.0;
        }
        began
    }

    fn begin_out(&mut self) -> bool {
        self.begin(TransitionKind::MapLoad, (0, 0, 0), (0, 0, 0), None)
    }

    fn notify_map_ready(&mut self) {
        self.fade.notify_destination_ready(DestinationReady {
            epoch: 0,
            local_pose: [0.0, 0.0],
        });
    }

    fn abort_to_in(&mut self) {
        if !self.fade.is_idle() {
            self.fade.abort_to_in(DestinationReady {
                epoch: 0,
                local_pose: [0.0, 0.0],
            });
            self.t = 0.0;
        }
    }

    fn tick(&mut self, dt: f32) -> Option<String> {
        let dt = dt.max(0.0);
        let (out_sec, hold_sec, in_sec) = self.timings();
        let phase = self.fade.phase();
        if phase == FadePhase::Idle {
            return None;
        }
        self.t += dt;
        let reached = match phase {
            FadePhase::Out => self.t >= out_sec,
            FadePhase::Hold => self.t >= hold_sec,
            FadePhase::In => self.t >= in_sec,
            FadePhase::Idle => false,
        };
        let stall = phase == FadePhase::Hold && self.t >= READY_STALL_SEC;
        let step = self.fade.tick(reached, stall);
        let report = if step.stall_report {
            Some(format!(
                "stalled kind={:?} missing={}",
                self.fade.kind(),
                self.fade.flags().missing_csv(self.fade.kind())
            ))
        } else {
            None
        };
        if step.phase_changed {
            self.t = 0.0;
        }
        report
    }

    fn alpha(&self) -> f32 {
        let (out_sec, _, in_sec) = self.timings();
        match self.fade.phase() {
            FadePhase::Idle => 0.0,
            FadePhase::Out => (self.t / out_sec).clamp(0.0, 1.0),
            FadePhase::Hold => 1.0,
            FadePhase::In => 1.0 - (self.t / in_sec).clamp(0.0, 1.0),
        }
    }

    fn is_hold(&self) -> bool {
        self.fade.phase() == FadePhase::Hold
    }

    fn is_in(&self) -> bool {
        self.fade.phase() == FadePhase::In
    }
}

#[test]
fn fade_out_holds_until_map_ready_then_fades_in() {
    let mut fade = Clock::new();
    fade.begin_out();
    fade.tick(MAP_FADE_OUT_SEC * 0.5);
    assert!(fade.alpha() > 0.4 && fade.alpha() < 0.6);
    assert!(fade.fade.holds_source_presentation());
    assert!(!fade.fade.is_fully_black());
    assert!(!fade.fade.allows_baseline_swap());
    fade.tick(MAP_FADE_OUT_SEC);
    assert!(fade.is_hold());
    assert!(fade.fade.is_fully_black());
    assert!(!fade.fade.holds_source_presentation());
    assert!((fade.alpha() - 1.0).abs() < 1e-4);
    assert!(fade.fade.allows_baseline_swap());
    fade.notify_map_ready();
    fade.tick(MAP_FADE_HOLD_SEC * 0.5);
    assert!(fade.is_hold());
    assert!((fade.alpha() - 1.0).abs() < 1e-4);
    fade.tick(MAP_FADE_HOLD_SEC);
    assert!(fade.is_in());
    assert!(fade.alpha() > 0.9);
    fade.tick(MAP_FADE_IN_SEC + 0.01);
    assert!(fade.fade.is_idle());
    assert!(fade.alpha() <= 0.001);
}

#[test]
fn map_ready_during_out_does_not_skip_black_hold() {
    let mut fade = Clock::new();
    fade.begin_out();
    fade.tick(MAP_FADE_OUT_SEC * 0.25);
    fade.notify_map_ready();
    fade.tick(MAP_FADE_OUT_SEC);
    assert!(fade.is_hold(), "must sit at black after fade-out");
    assert!((fade.alpha() - 1.0).abs() < 1e-4);
    fade.tick(MAP_FADE_HOLD_SEC * 0.5);
    assert!(fade.is_hold());
    fade.tick(MAP_FADE_HOLD_SEC);
    assert!(fade.is_in());
}

#[test]
fn fade_in_waits_for_destination_ready() {
    let mut fade = Clock::new();
    fade.begin_out();
    fade.tick(MAP_FADE_OUT_SEC + 0.01);
    fade.tick(MAP_FADE_HOLD_SEC + 0.01);
    assert!(fade.is_hold());
    assert!(fade.fade.destination_ready().is_none());
    fade.tick(0.0);
    assert!(
        fade.is_hold(),
        "FadeIn must not start without DestinationReady"
    );
    fade.fade.notify_destination_ready(DestinationReady {
        epoch: 3,
        local_pose: [10.0, -2.3],
    });
    fade.tick(0.0);
    assert!(fade.is_in());
    assert_eq!(
        fade.fade.destination_ready().unwrap().local_pose,
        [10.0, -2.3]
    );
}

#[test]
fn delayed_destination_ready_keeps_black() {
    let mut fade = Clock::new();
    fade.begin(TransitionKind::MapLoad, (1, 0, 0), (2, 0, 0), None);
    fade.tick(MAP_FADE_OUT_SEC + MAP_FADE_HOLD_SEC + 1.0);
    assert!(fade.is_hold());
    assert!((fade.alpha() - 1.0).abs() < 1e-4);
    assert_eq!(
        fade.fade.debug_banner().as_deref(),
        Some("MAP TRANSITION · Waiting DestinationReady")
    );
}

#[test]
fn membership_fade_in_waits_for_membership_ready() {
    let mut fade = Clock::new();
    fade.begin(
        TransitionKind::Membership,
        (1, 0, 0),
        (1, 1, 0),
        Some([-8.0, -3.0]),
    );
    fade.tick(MEMBERSHIP_FADE_OUT_SEC + 0.01);
    fade.tick(MEMBERSHIP_FADE_HOLD_SEC + 0.01);
    assert!(fade.is_hold());
    assert!((fade.alpha() - 1.0).abs() < 1e-4);
    fade.fade.notify_destination_ready(DestinationReady {
        epoch: 1,
        local_pose: [-8.0, -3.0],
    });
    fade.tick(0.0);
    assert!(
        fade.is_hold(),
        "Map DestinationReady must not reveal a membership fade"
    );
    fade.fade.notify_membership_ready(MembershipReady {
        epoch: 1,
        address: (1, 1, 0),
    });
    fade.tick(0.0);
    assert!(fade.is_in());
    assert_eq!(
        fade.fade.debug_banner().as_deref(),
        Some("CHANNEL TRANSITION · FadeIn")
    );
}

#[test]
fn membership_request_without_begin_does_not_obscure() {
    let fade = Clock::new();
    assert!(fade.fade.is_idle());
    assert!(fade.alpha() <= 0.001);
    assert!(fade.fade.debug_banner().is_none());
}

#[test]
fn stall_stays_black_and_does_not_fake_ready() {
    let mut fade = Clock::new();
    fade.begin(TransitionKind::Membership, (1, 0, 0), (1, 1, 0), None);
    fade.tick(MEMBERSHIP_FADE_OUT_SEC + 0.01);
    let log = fade.tick(READY_STALL_SEC + 0.01);
    assert!(fade.is_hold());
    assert!(fade.fade.stalled());
    assert!(log.is_some_and(|s| s.contains("stalled") && s.contains("Membership")));
    fade.fade.notify_membership_ready(MembershipReady {
        epoch: 1,
        address: (1, 1, 0),
    });
    fade.tick(0.0);
    assert!(
        fade.is_hold(),
        "stalled gate must not FadeIn even if a late ready arrives"
    );
    assert!(fade.fade.debug_banner().unwrap().contains("STALLED"));
}

#[test]
fn reject_fades_back_in() {
    let mut fade = Clock::new();
    fade.begin_out();
    fade.tick(MAP_FADE_OUT_SEC * 0.5);
    fade.abort_to_in();
    fade.tick(MAP_FADE_IN_SEC + 0.01);
    assert!(fade.fade.is_idle());
}

#[test]
fn idle_has_no_overlay_until_authoritative_begin_out() {
    let fade = Clock::new();
    assert!(fade.fade.is_idle());
    assert!(fade.alpha() <= 0.001);
    assert!(fade.fade.allows_baseline_swap());
}

#[test]
fn begin_out_if_idle_does_not_restart_an_active_fade() {
    let mut fade = Clock::new();
    assert!(fade.begin_out());
    fade.tick(MAP_FADE_OUT_SEC * 0.25);
    let alpha = fade.alpha();
    assert!(!fade.begin_out());
    assert!((fade.alpha() - alpha).abs() < 1e-5);
}

#[test]
fn early_ready_does_not_commit_presentation_before_blackout() {
    let mut fade = Clock::new();
    fade.begin(TransitionKind::MapLoad, (1, 0, 0), (2, 0, 0), None);
    fade.fade.notify_destination_ready(DestinationReady {
        epoch: 2,
        local_pose: [10.0, -2.3],
    });
    fade.tick(MAP_FADE_OUT_SEC * 0.4);
    assert!(fade.fade.holds_source_presentation());
    assert!(!fade.fade.is_fully_black());
    assert!(!fade.fade.allows_baseline_swap());
    fade.tick(MAP_FADE_OUT_SEC);
    assert!(fade.fade.is_fully_black());
    assert!(fade.fade.allows_baseline_swap());
}

#[test]
fn fully_black_is_hold_not_an_extra_delay() {
    let mut fade = Clock::new();
    fade.begin_out();
    assert!(!fade.fade.is_fully_black());
    fade.tick(MAP_FADE_OUT_SEC);
    assert!(fade.fade.is_fully_black());
    assert!((fade.alpha() - 1.0).abs() < 1e-4);
}

#[test]
fn gameplay_input_locked_until_fade_in() {
    let mut fade = Clock::new();
    assert!(!fade.fade.gameplay_input_locked());
    fade.begin_out();
    assert!(fade.fade.gameplay_input_locked());
    fade.tick(MAP_FADE_OUT_SEC);
    assert!(fade.fade.gameplay_input_locked());
    fade.notify_map_ready();
    fade.tick(MAP_FADE_HOLD_SEC);
    assert!(fade.is_in());
    assert!(
        !fade.fade.gameplay_input_locked(),
        "FadeIn is the gameplay unlock boundary"
    );
    fade.tick(MAP_FADE_IN_SEC + 0.01);
    assert!(fade.fade.is_idle());
    assert!(!fade.fade.gameplay_input_locked());
}

#[test]
fn phases_report_names_and_stall_is_reported_once() {
    let mut fade = Clock::new();
    assert_eq!(fade.fade.debug_phase(), "Idle");
    fade.begin(TransitionKind::MapLoad, (1, 0, 0), (2, 0, 0), Some([1.0, 2.0]));
    assert_eq!(fade.fade.debug_phase(), "FadeOut");
    assert_eq!(fade.fade.pose_at_start(), Some([1.0, 2.0]));
    assert_eq!(fade.fade.dest_address(), (2, 0, 0));
    assert_eq!(fade.fade.source_address(), (1, 0, 0));
    assert_eq!(
        fade.fade.debug_banner().as_deref(),
        Some("MAP TRANSITION · FadeOut")
    );
    fade.tick(MAP_FADE_OUT_SEC);
    assert_eq!(fade.fade.debug_phase(), "Hold");
    assert!(fade.tick(READY_STALL_SEC).is_some());
    assert!(fade.tick(1.0).is_none());
    assert_eq!(
        fade.fade.debug_banner().as_deref(),
        Some("MAP TRANSITION · Waiting DestinationReady · STALLED")
    );
    fade.notify_map_ready();
    assert_eq!(
        fade.fade.debug_banner().as_deref(),
        Some("MAP TRANSITION · Hold · STALLED")
    );
    let mut flags = fade.fade.flags();
    flags.geometry_ready = true;
    fade.fade.set_flags(flags);
    assert!(fade.fade.flags().geometry_ready);
}
