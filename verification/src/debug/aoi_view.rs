//! Mapping of replica entities to semantic labels and interest bands.
//! Presentation only; does not decide server interest.

use vstd::prelude::*;

use crate::ids::{id_label, ReplicatedKind, WireEntityId};
use crate::text::{append_str, owned};

verus! {

/// How long an Enter/Leave note stays highlighted, in server ticks.
pub const RECENT_LIFECYCLE_TICKS: u64 = 15;

#[derive(Clone, Copy, Debug, PartialEq, Eq, Structural)]
pub enum ReplicaRole {
    LocalPlayer,
    RemotePlayer,
    Interactable,
    Portal,
    Npc,
}

#[derive(Clone, Copy, Debug, PartialEq, Eq, Structural)]
pub enum AoiBand {
    /// Inside the enter rectangle (and therefore the leave rectangle).
    InEnter,
    /// Inside leave, outside enter: hysteresis retention.
    LeaveHysteresis,
    /// Outside the leave rectangle.
    OutsideLeave,
}

#[derive(Clone, Copy, Debug, PartialEq, Eq, Structural)]
pub enum ReplicaLifecycleEvent {
    Entered,
    Left,
}

/// One Enter/Leave observed for an entity at a server tick.
#[derive(Clone, Copy, Debug, PartialEq, Eq, Structural)]
pub struct ReplicaLifecycleNote {
    pub entity_id: WireEntityId,
    pub tick: u64,
    pub event: ReplicaLifecycleEvent,
}

pub open spec fn role_spec(kind: ReplicatedKind, local: bool) -> ReplicaRole {
    match kind {
        ReplicatedKind::Player => if local {
            ReplicaRole::LocalPlayer
        } else {
            ReplicaRole::RemotePlayer
        },
        ReplicatedKind::Interactable => ReplicaRole::Interactable,
        ReplicatedKind::Portal => ReplicaRole::Portal,
        ReplicatedKind::Npc => ReplicaRole::Npc,
    }
}

pub fn role_of(kind: ReplicatedKind, local: bool) -> (r: ReplicaRole)
    ensures
        r == role_spec(kind, local),
{
    match kind {
        ReplicatedKind::Player => if local {
            ReplicaRole::LocalPlayer
        } else {
            ReplicaRole::RemotePlayer
        },
        ReplicatedKind::Interactable => ReplicaRole::Interactable,
        ReplicatedKind::Portal => ReplicaRole::Portal,
        ReplicatedKind::Npc => ReplicaRole::Npc,
    }
}

/// `"PLAYER {id} · LOCAL"`, `"PLAYER {id} · REMOTE"`, `"INTERACTABLE {id}"`,
/// `"PORTAL {id}"` or `"NPC {id}"`.
pub open spec fn semantic_label_spec(kind: ReplicatedKind, id: WireEntityId, local: bool) -> Seq<
    char,
> {
    let l = id_label(id.index, id.generation);
    match kind {
        ReplicatedKind::Player => if local {
            "PLAYER "@ + l + " · LOCAL"@
        } else {
            "PLAYER "@ + l + " · REMOTE"@
        },
        ReplicatedKind::Interactable => "INTERACTABLE "@ + l,
        ReplicatedKind::Portal => "PORTAL "@ + l,
        ReplicatedKind::Npc => "NPC "@ + l,
    }
}

pub fn semantic_label(kind: ReplicatedKind, id: WireEntityId, local: bool) -> (s: String)
    ensures
        s@ == semantic_label_spec(kind, id, local),
{
    let l = id.label();
    let mut s = match kind {
        ReplicatedKind::Player => owned("PLAYER "),
        ReplicatedKind::Interactable => owned("INTERACTABLE "),
        ReplicatedKind::Portal => owned("PORTAL "),
        ReplicatedKind::Npc => owned("NPC "),
    };
    append_str(&mut s, l.as_str());
    match kind {
        ReplicatedKind::Player => {
            if local {
                append_str(&mut s, " · LOCAL");
            } else {
                append_str(&mut s, " · REMOTE");
            }
        },
        _ => {},
    }
    s
}

pub open spec fn band_label_spec(band: AoiBand) -> Seq<char> {
    match band {
        AoiBand::InEnter => "Known · Enter AOI"@,
        AoiBand::LeaveHysteresis => "Known · Leave band"@,
        AoiBand::OutsideLeave => "Known · outside leave"@,
    }
}

pub fn band_label(band: AoiBand) -> (s: &'static str)
    ensures
        s@ == band_label_spec(band),
{
    match band {
        AoiBand::InEnter => "Known · Enter AOI",
        AoiBand::LeaveHysteresis => "Known · Leave band",
        AoiBand::OutsideLeave => "Known · outside leave",
    }
}

pub open spec fn event_word(e: ReplicaLifecycleEvent) -> Seq<char> {
    match e {
        ReplicaLifecycleEvent::Entered => "Entered"@,
        ReplicaLifecycleEvent::Left => "Left"@,
    }
}

/// A note is recent when at most [`RECENT_LIFECYCLE_TICKS`] ticks old
/// (saturating: notes from the future are recent).
pub open spec fn note_recent(n: ReplicaLifecycleNote, now_tick: u64) -> bool {
    now_tick <= n.tick || now_tick - n.tick <= RECENT_LIFECYCLE_TICKS
}

/// Newest note (latest in the list) for `id` that is still recent.
pub open spec fn recent_event(
    id: WireEntityId,
    notes: Seq<ReplicaLifecycleNote>,
    now_tick: u64,
) -> Option<ReplicaLifecycleEvent>
    decreases notes.len(),
{
    if notes.len() == 0 {
        None
    } else if notes.last().entity_id == id && note_recent(notes.last(), now_tick) {
        Some(notes.last().event)
    } else {
        recent_event(id, notes.drop_last(), now_tick)
    }
}

/// `"Entered"` / `"Left"` for the newest recent note of `id`.
pub fn recent_note(id: WireEntityId, notes: &[ReplicaLifecycleNote], now_tick: u64) -> (r: Option<
    &'static str,
>)
    ensures
        match recent_event(id, notes@, now_tick) {
            Some(e) => r is Some && r->0@ == event_word(e),
            None => r is None,
        },
{
    let mut i = notes.len();
    assert(notes@.take(i as int) =~= notes@);
    while i > 0
        invariant
            i <= notes@.len(),
            recent_event(id, notes@, now_tick) == recent_event(id, notes@.take(i as int), now_tick),
        decreases i,
    {
        let n = notes[i - 1];
        assert(notes@.take(i as int).drop_last() =~= notes@.take(i - 1));
        let stale = if now_tick > n.tick {
            now_tick - n.tick > RECENT_LIFECYCLE_TICKS
        } else {
            false
        };
        if n.entity_id == id && !stale {
            return match n.event {
                ReplicaLifecycleEvent::Entered => Some("Entered"),
                ReplicaLifecycleEvent::Left => Some("Left"),
            };
        }
        i = i - 1;
    }
    None
}

pub open spec fn compact_label_spec(role: ReplicaRole) -> Seq<char> {
    match role {
        ReplicaRole::LocalPlayer => "LOCAL PLAYER"@,
        ReplicaRole::RemotePlayer => "REMOTE PLAYER"@,
        ReplicaRole::Interactable => "INTERACTABLE"@,
        ReplicaRole::Portal => "PORTAL"@,
        ReplicaRole::Npc => "NPC"@,
    }
}

/// Compact world-space chip. Namespace ids belong in the inspector.
pub fn compact_world_space_label(role: ReplicaRole) -> (s: &'static str)
    ensures
        s@ == compact_label_spec(role),
{
    match role {
        ReplicaRole::LocalPlayer => "LOCAL PLAYER",
        ReplicaRole::RemotePlayer => "REMOTE PLAYER",
        ReplicaRole::Interactable => "INTERACTABLE",
        ReplicaRole::Portal => "PORTAL",
        ReplicaRole::Npc => "NPC",
    }
}

pub open spec fn role_tag(role: ReplicaRole) -> u8 {
    match role {
        ReplicaRole::LocalPlayer => 0,
        ReplicaRole::RemotePlayer => 1,
        ReplicaRole::Interactable => 2,
        ReplicaRole::Portal => 3,
        ReplicaRole::Npc => 4,
    }
}

/// Sort rank of a role: local player first, then remote players,
/// interactables, portals, NPCs.
pub fn replica_role_tag(role: ReplicaRole) -> (t: u8)
    ensures
        t == role_tag(role),
{
    match role {
        ReplicaRole::LocalPlayer => 0,
        ReplicaRole::RemotePlayer => 1,
        ReplicaRole::Interactable => 2,
        ReplicaRole::Portal => 3,
        ReplicaRole::Npc => 4,
    }
}

/// World-space labels may be projected only when source poses and camera
/// belong to the same ready presentation world.
pub fn world_space_labels_eligible(maps_aligned: bool, fade_idle: bool, destination_ready: bool) -> (b:
    bool)
    ensures
        b == (maps_aligned && (fade_idle || destination_ready)),
{
    maps_aligned && (fade_idle || destination_ready)
}

/// Distinct roles have distinct tags, so the tag order is a strict rank.
pub proof fn lemma_role_tags_distinct(a: ReplicaRole, b: ReplicaRole)
    ensures
        (role_tag(a) == role_tag(b)) == (a == b),
{
}

/// Only a Player kind marked local is the local player.
pub proof fn lemma_local_role_only_for_local_player(kind: ReplicatedKind, local: bool)
    ensures
        (role_spec(kind, local) == ReplicaRole::LocalPlayer) == (kind == ReplicatedKind::Player
            && local),
{
}

} // verus!
