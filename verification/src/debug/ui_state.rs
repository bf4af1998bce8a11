//! Debug UI choices that do not depend on simulation state.

use vstd::prelude::*;

use crate::text::{append_decimal, append_str, decimal, owned};

verus! {

/// Skeleton proof animation source. Default is the manual slider.
#[derive(Clone, Copy, Debug, Default, PartialEq, Eq, Structural)]
pub enum AnimationProofMode {
    #[default]
    ManualA1,
    PlaybackA2,
}

impl AnimationProofMode {
    pub fn as_str(self) -> (s: &'static str)
        ensures
            s@ == (match self {
                AnimationProofMode::ManualA1 => "Manual A1"@,
                AnimationProofMode::PlaybackA2 => "Playback A2"@,
            }),
    {
        match self {
            AnimationProofMode::ManualA1 => "Manual A1",
            AnimationProofMode::PlaybackA2 => "Playback A2",
        }
    }
}

/// Rising edge on a world-gizmo child turns the master gate on; unchecking a
/// child never mutes the master.
pub fn arm_master_on_gizmo_enable(master: &mut bool, was_enabled: bool, now_enabled: bool)
    ensures
        *final(master) == (*old(master) || (now_enabled && !was_enabled)),
{
    if now_enabled && !was_enabled {
        *master = true;
    }
}

/// Replica-present action re-anchors prediction; no replica → local spawn reset.
pub fn reset_player_uses_replica(replica_has_local: bool) -> (b: bool)
    ensures
        b == replica_has_local,
{
    replica_has_local
}

pub const RESET_TO_SPAWN_LABEL: &'static str = "Reset to Spawn Point";

pub const RESET_TO_SPAWN_HELP: &'static str = "Connected: server-authoritative spawn reset (DevResetPlayer). Offline: local World spawn and camera center.";

pub const RESET_TO_SPAWN_FLASH: &'static str = "RESET TO SPAWN POINT";

pub fn reset_action_label(replica_has_local: bool) -> (s: &'static str)
    ensures
        s@ == (if replica_has_local {
            "Reanchor Prediction"@
        } else {
            "Reset to Spawn Point"@
        }),
{
    if replica_has_local {
        "Reanchor Prediction"
    } else {
        "Reset to Spawn Point"
    }
}

pub fn reset_action_help(replica_has_local: bool) -> (s: &'static str)
    ensures
        s@ == (if replica_has_local {
            "Snaps local prediction to the authoritative replica. Not a server teleport. Pose may not move if already aligned."@
        } else {
            "Connected: server-authoritative spawn reset (DevResetPlayer). Offline: local World spawn and camera center."@
        }),
{
    if replica_has_local {
        "Snaps local prediction to the authoritative replica. Not a server teleport. Pose may not move if already aligned."
    } else {
        "Connected: server-authoritative spawn reset (DevResetPlayer). Offline: local World spawn and camera center."
    }
}

pub fn reset_action_flash(replica_has_local: bool) -> (s: &'static str)
    ensures
        s@ == (if replica_has_local {
            "REANCHOR"@
        } else {
            "RESET TO SPAWN POINT"@
        }),
{
    if replica_has_local {
        "REANCHOR"
    } else {
        "RESET TO SPAWN POINT"
    }
}

/// The master gate is monotone: once armed, no child toggle disarms it.
pub proof fn lemma_master_gate_monotone(master: bool, was_enabled: bool, now_enabled: bool)
    requires
        master,
    ensures
        master || (now_enabled && !was_enabled),
{
}

/// How long a dev action flash stays on screen, in milliseconds.
pub const DEV_ACTION_FLASH_MS: u64 = 3000;

/// Center-screen toast for Reset / Reanchor / Channel: its text and the
/// time (ms) until which it shows.
pub struct DevActionFlash {
    pub text: String,
    pub until_ms: Option<u64>,
}

impl DevActionFlash {
    /// No toast.
    pub fn new() -> (f: Self)
        ensures
            f.text@ == Seq::<char>::empty(),
            f.until_ms is None,
    {
        DevActionFlash { text: String::new(), until_ms: None }
    }

    /// Show `text` for `DEV_ACTION_FLASH_MS` from `now_ms`.
    pub fn note_dev_action_flash(&mut self, text: &str, now_ms: u64)
        requires
            now_ms + DEV_ACTION_FLASH_MS <= u64::MAX,
        ensures
            final(self).text@ == text@,
            final(self).until_ms == Some((now_ms + DEV_ACTION_FLASH_MS) as u64),
    {
        self.text = owned(text);
        self.until_ms = Some(now_ms + DEV_ACTION_FLASH_MS);
    }

    /// The toast shows: it has text and its time has not run out.
    pub fn center_toast_live(&self, now_ms: u64) -> (b: bool)
        ensures
            b == (self.text@.len() > 0 && match self.until_ms {
                Some(until) => now_ms < until,
                None => false,
            }),
    {
        !self.text.as_str().is_empty() && match self.until_ms {
            Some(until) => now_ms < until,
            None => false,
        }
    }
}

/// The toast text for a channel change.
pub open spec fn channel_flash_text(prev: u32, current: u32) -> Seq<char> {
    "CHANNEL "@ + decimal(prev as nat) + " -> "@ + decimal(current as nat)
}

/// Track the observed channel and epoch; a change from a known channel to
/// another flashes `CHANNEL prev -> current`.
pub fn note_channel_flash(
    last_observed_channel: &mut Option<u32>,
    last_observed_epoch: &mut Option<u32>,
    current: u32,
    epoch: u32,
    flash: &mut DevActionFlash,
    now_ms: u64,
)
    requires
        now_ms + DEV_ACTION_FLASH_MS <= u64::MAX,
    ensures
        *final(last_observed_channel) == Some(current),
        *final(last_observed_epoch) == Some(epoch),
        match *old(last_observed_channel) {
            Some(prev) if prev != current => {
                &&& final(flash).text@ == channel_flash_text(prev, current)
                &&& final(flash).until_ms == Some((now_ms + DEV_ACTION_FLASH_MS) as u64)
            },
            _ => final(flash).text@ == old(flash).text@ && final(flash).until_ms == old(flash).until_ms,
        },
{
    match *last_observed_channel {
        Some(prev) => {
            if prev != current {
                let mut text = owned("CHANNEL ");
                append_decimal(&mut text, prev as u64);
                append_str(&mut text, " -> ");
                append_decimal(&mut text, current as u64);
                flash.note_dev_action_flash(text.as_str(), now_ms);
            }
        },
        None => {},
    }
    *last_observed_channel = Some(current);
    *last_observed_epoch = Some(epoch);
}

} // verus!
