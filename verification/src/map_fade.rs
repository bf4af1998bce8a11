//! Transition presentation: `Idle → FadeOut → Hold (black / waiting) →
//! FadeIn → Idle`.
//!
//! Fade duration is presentation timing: the caller runs the wall-clock
//! timer of the current phase and reports when it has run out. Reveal
//! readiness is state-driven and decided here. Simulation continues while
//! the screen is obscured.

use vstd::prelude::*;

use crate::text::{join, join_strs, str_eq, str_views};

verus! {

/// What kind of world-address change a fade is hiding.
#[derive(Clone, Copy, Debug, Default, PartialEq, Eq, Structural)]
pub enum TransitionKind {
    #[default]
    MapLoad,
    /// Same map: Channel and/or Instance. Not a map load.
    Membership,
}

/// Same-map Channel/Instance destination readiness.
#[derive(Clone, Copy, Debug)]
pub struct MembershipReady {
    pub epoch: u32,
    pub address: (u32, u32, u32),
}

/// Readiness flags. Map reveal uses the map set, membership the membership set.
#[derive(Clone, Copy, Debug, Default, PartialEq, Eq, Structural)]
pub struct ReadinessFlags {
    pub observer_accepted: bool,
    pub epoch_applied: bool,
    pub geometry_ready: bool,
    pub self_baseline: bool,
    pub local_seeded: bool,
    pub prediction_synced: bool,
    pub camera_ready: bool,
    pub old_replicas_cleared: bool,
    pub presentation_matches: bool,
    pub session_closed: bool,
}

/// Named flags that a transition kind requires, in report order.
pub open spec fn flag_pairs(f: ReadinessFlags, kind: TransitionKind) -> Seq<(Seq<char>, bool)> {
    match kind {
        TransitionKind::MapLoad => seq![
            ("observer_accepted"@, f.observer_accepted),
            ("epoch_applied"@, f.epoch_applied),
            ("geometry_ready"@, f.geometry_ready),
            ("self_baseline"@, f.self_baseline),
            ("local_seeded"@, f.local_seeded),
            ("prediction_synced"@, f.prediction_synced),
            ("camera_ready"@, f.camera_ready),
            ("old_replicas_cleared"@, f.old_replicas_cleared),
            ("presentation_matches"@, f.presentation_matches),
        ],
        TransitionKind::Membership => seq![
            ("observer_accepted"@, f.observer_accepted),
            ("epoch_applied"@, f.epoch_applied),
            ("self_baseline"@, f.self_baseline),
            ("local_seeded"@, f.local_seeded),
            ("old_replicas_cleared"@, f.old_replicas_cleared),
            ("presentation_matches"@, f.presentation_matches),
            ("session_closed"@, f.session_closed),
        ],
    }
}

/// Names of the unset flags, in order.
pub open spec fn missing_names(pairs: Seq<(Seq<char>, bool)>) -> Seq<Seq<char>>
    decreases pairs.len(),
{
    if pairs.len() == 0 {
        Seq::empty()
    } else {
        let rest = missing_names(pairs.drop_last());
        if pairs.last().1 {
            rest
        } else {
            rest.push(pairs.last().0)
        }
    }
}

/// Every required flag is set.
pub open spec fn all_set(pairs: Seq<(Seq<char>, bool)>) -> bool {
    forall|i: int| 0 <= i < pairs.len() ==> #[trigger] pairs[i].1
}

pub open spec fn pair_views(p: Seq<(&str, bool)>) -> Seq<(Seq<char>, bool)> {
    p.map_values(|x: (&str, bool)| (x.0@, x.1))
}

impl ReadinessFlags {
    pub fn map_complete(self) -> (b: bool)
        ensures
            b == (self.observer_accepted && self.epoch_applied && self.geometry_ready
                && self.self_baseline && self.local_seeded && self.prediction_synced
                && self.camera_ready && self.old_replicas_cleared && self.presentation_matches),
    {
        self.observer_accepted && self.epoch_applied && self.geometry_ready && self.self_baseline
            && self.local_seeded && self.prediction_synced && self.camera_ready
            && self.old_replicas_cleared && self.presentation_matches
    }

    pub fn membership_complete(self) -> (b: bool)
        ensures
            b == (self.observer_accepted && self.epoch_applied && self.self_baseline
                && self.local_seeded && self.old_replicas_cleared && self.presentation_matches
                && self.session_closed),
    {
        self.observer_accepted && self.epoch_applied && self.self_baseline && self.local_seeded
            && self.old_replicas_cleared && self.presentation_matches && self.session_closed
    }

    /// Comma-separated names of the flags that `kind` still waits for.
    pub fn missing_csv(self, kind: TransitionKind) -> (s: String)
        ensures
            s@ == join(missing_names(flag_pairs(self, kind)), seq![',']),
    {
        let pairs: Vec<(&'static str, bool)> = match kind {
            TransitionKind::MapLoad => vec![
                ("observer_accepted", self.observer_accepted),
                ("epoch_applied", self.epoch_applied),
                ("geometry_ready", self.geometry_ready),
                ("self_baseline", self.self_baseline),
                ("local_seeded", self.local_seeded),
                ("prediction_synced", self.prediction_synced),
                ("camera_ready", self.camera_ready),
                ("old_replicas_cleared", self.old_replicas_cleared),
                ("presentation_matches", self.presentation_matches),
            ],
            TransitionKind::Membership => vec![
                ("observer_accepted", self.observer_accepted),
                ("epoch_applied", self.epoch_applied),
                ("self_baseline", self.self_baseline),
                ("local_seeded", self.local_seeded),
                ("old_replicas_cleared", self.old_replicas_cleared),
                ("presentation_matches", self.presentation_matches),
                ("session_closed", self.session_closed),
            ],
        };
        assert(pair_views(pairs@) =~= flag_pairs(self, kind));
        let mut names: Vec<&'static str> = Vec::new();
        let n = pairs.len();
        let mut i: usize = 0;
        while i < n
            invariant
                n == pairs@.len(),
                i <= n,
                str_views(names@) == missing_names(pair_views(pairs@).take(i as int)),
            decreases n - i,
        {
            assert(pair_views(pairs@).take(i + 1).drop_last() =~= pair_views(pairs@).take(
                i as int,
            ));
            if !pairs[i].1 {
                names.push(pairs[i].0);
            }
            assert(str_views(names@) =~= missing_names(pair_views(pairs@).take(i + 1)));
            i = i + 1;
        }
        assert(pair_views(pairs@).take(n as int) =~= pair_views(pairs@));
        proof {
            reveal_strlit(",");
        }
        assert(","@ =~= seq![',']);
        let sl = names.as_slice();
        assert(sl@ == names@);
        let r = join_strs(sl, ",");
        assert(missing_names(flag_pairs(self, kind)) == str_views(sl@));
        r
    }
}

/// World-bound UI must not still be mid-session when membership is revealed.
pub fn world_interaction_cleared_for_membership(kind_name: &str) -> (b: bool)
    ensures
        b == (kind_name@ == "IDLE"@ || kind_name@ == "CLOSED"@ || kind_name@ == "REJECTED"@),
{
    str_eq(kind_name, "IDLE") || str_eq(kind_name, "CLOSED") || str_eq(kind_name, "REJECTED")
}

/// Banner of a membership transition between two `(map, channel, instance)`
/// addresses.
pub fn membership_banner(from: (u32, u32, u32), to: (u32, u32, u32)) -> (s: &'static str)
    ensures
        s@ == (if from.0 == to.0 && from.1 != to.1 && from.2 == to.2 {
            "CHANNEL TRANSITION"@
        } else if from.0 == to.0 && from.1 == to.1 && from.2 != to.2 {
            "INSTANCE TRANSITION"@
        } else {
            "MEMBERSHIP TRANSITION"@
        }),
{
    let channel_only = from.0 == to.0 && from.1 != to.1 && from.2 == to.2;
    let instance_only = from.0 == to.0 && from.1 == to.1 && from.2 != to.2;
    if channel_only {
        "CHANNEL TRANSITION"
    } else if instance_only {
        "INSTANCE TRANSITION"
    } else {
        "MEMBERSHIP TRANSITION"
    }
}

// ---------------------------------------------------------------------------
// Fade phases

#[derive(Clone, Copy, Debug, PartialEq, Eq, Structural)]
pub enum FadePhase {
    Idle,
    Out,
    Hold,
    In,
}

/// Map destination may be revealed only after this snapshot is true. `P`
/// is the local pose the geometry, baseline, prediction and camera share.
#[derive(Clone, Copy, Debug)]
pub struct DestinationReady<P> {
    pub epoch: u32,
    pub local_pose: P,
}

/// What one timer step changed.
#[derive(Clone, Copy, Debug, PartialEq, Eq, Structural)]
pub struct FadeStep {
    /// A new phase began; its timer starts from zero.
    pub phase_changed: bool,
    /// Readiness has just been declared stalled; report it once.
    pub stall_report: bool,
}

/// Screen fade phases and reveal readiness. `P` is the pose type.
pub struct MapFade<P> {
    phase: FadePhase,
    kind: TransitionKind,
    from: (u32, u32, u32),
    to: (u32, u32, u32),
    pose_at_start: Option<P>,
    map_ready: bool,
    destination_ready: Option<DestinationReady<P>>,
    membership_ready: Option<MembershipReady>,
    flags: ReadinessFlags,
    stalled: bool,
    stall_logged: bool,
}

pub struct FadeModel<P> {
    pub phase: FadePhase,
    pub kind: TransitionKind,
    pub from: (u32, u32, u32),
    pub to: (u32, u32, u32),
    pub pose_at_start: Option<P>,
    pub map_ready: bool,
    pub destination_ready: Option<DestinationReady<P>>,
    pub membership_ready: Option<MembershipReady>,
    pub flags: ReadinessFlags,
    pub stalled: bool,
    pub stall_logged: bool,
}

impl<P: Copy> View for MapFade<P> {
    type V = FadeModel<P>;

    closed spec fn view(&self) -> FadeModel<P> {
        FadeModel {
            phase: self.phase,
            kind: self.kind,
            from: self.from,
            to: self.to,
            pose_at_start: self.pose_at_start,
            map_ready: self.map_ready,
            destination_ready: self.destination_ready,
            membership_ready: self.membership_ready,
            flags: self.flags,
            stalled: self.stalled,
            stall_logged: self.stall_logged,
        }
    }
}

pub open spec fn no_flags() -> ReadinessFlags {
    ReadinessFlags {
        observer_accepted: false,
        epoch_applied: false,
        geometry_ready: false,
        self_baseline: false,
        local_seeded: false,
        prediction_synced: false,
        camera_ready: false,
        old_replicas_cleared: false,
        presentation_matches: false,
        session_closed: false,
    }
}

pub open spec fn idle_fade<P>() -> FadeModel<P> {
    FadeModel {
        phase: FadePhase::Idle,
        kind: TransitionKind::MapLoad,
        from: (0, 0, 0),
        to: (0, 0, 0),
        pose_at_start: None,
        map_ready: false,
        destination_ready: None,
        membership_ready: None,
        flags: no_flags(),
        stalled: false,
        stall_logged: false,
    }
}

/// The destination of the fade's kind has been declared ready.
pub open spec fn ready_spec<P>(m: FadeModel<P>) -> bool {
    match m.kind {
        TransitionKind::MapLoad => m.destination_ready is Some,
        TransitionKind::Membership => m.membership_ready is Some,
    }
}

/// One timer step. `phase_time_reached`: the current phase's duration has
/// elapsed; `stall_time_reached`: the black hold has waited past the stall
/// limit.
pub open spec fn tick_spec<P>(m: FadeModel<P>, phase_time_reached: bool, stall_time_reached: bool) -> (
    FadeModel<P>,
    FadeStep,
) {
    match m.phase {
        FadePhase::Idle => (m, FadeStep { phase_changed: false, stall_report: false }),
        FadePhase::Out => if phase_time_reached {
            (
                FadeModel { phase: FadePhase::Hold, ..m },
                FadeStep { phase_changed: true, stall_report: false },
            )
        } else {
            (m, FadeStep { phase_changed: false, stall_report: false })
        },
        FadePhase::Hold => {
            let stall_now = stall_time_reached && !ready_spec(m);
            let stalled = m.stalled || stall_now;
            let report = stall_now && !m.stall_logged;
            let m1 = FadeModel { stalled, stall_logged: m.stall_logged || stall_now, ..m };
            if phase_time_reached && ready_spec(m) && !stalled {
                (
                    FadeModel { phase: FadePhase::In, ..m1 },
                    FadeStep { phase_changed: true, stall_report: report },
                )
            } else {
                (m1, FadeStep { phase_changed: false, stall_report: report })
            }
        },
        FadePhase::In => if phase_time_reached {
            (
                FadeModel {
                    phase: FadePhase::Idle,
                    map_ready: false,
                    destination_ready: None,
                    membership_ready: None,
                    stalled: false,
                    stall_logged: false,
                    ..m
                },
                FadeStep { phase_changed: true, stall_report: false },
            )
        } else {
            (m, FadeStep { phase_changed: false, stall_report: false })
        },
    }
}

/// `"{label} · {step}"`, with `" · STALLED"` when stalled.
pub open spec fn banner_spec<P>(m: FadeModel<P>) -> Option<Seq<char>> {
    if m.phase == FadePhase::Idle {
        None
    } else {
        let label = match m.kind {
            TransitionKind::MapLoad => "MAP TRANSITION"@,
            TransitionKind::Membership => membership_banner_spec(m.from, m.to),
        };
        let step = match m.phase {
            FadePhase::Out => "FadeOut"@,
            FadePhase::Hold => if ready_spec(m) {
                "Hold"@
            } else {
                match m.kind {
                    TransitionKind::MapLoad => "Waiting DestinationReady"@,
                    TransitionKind::Membership => "Waiting MembershipReady"@,
                }
            },
            _ => "FadeIn"@,
        };
        let text = label + " · "@ + step;
        Some(
            if m.stalled {
                text + " · STALLED"@
            } else {
                text
            },
        )
    }
}

pub open spec fn membership_banner_spec(from: (u32, u32, u32), to: (u32, u32, u32)) -> Seq<char> {
    if from.0 == to.0 && from.1 != to.1 && from.2 == to.2 {
        "CHANNEL TRANSITION"@
    } else if from.0 == to.0 && from.1 == to.1 && from.2 != to.2 {
        "INSTANCE TRANSITION"@
    } else {
        "MEMBERSHIP TRANSITION"@
    }
}

/// A stalled fade has always reported its stall.
pub open spec fn fade_wf<P>(m: FadeModel<P>) -> bool {
    m.stalled ==> m.stall_logged
}

impl<P> MapFade<P> {
    #[verifier::type_invariant]
    spec fn stall_is_logged(self) -> bool {
        self.stalled ==> self.stall_logged
    }
}

impl<P: Copy> MapFade<P> {
    pub fn new() -> (f: Self)
        ensures
            f@ == idle_fade::<P>(),
            fade_wf(f@),
    {
        MapFade {
            phase: FadePhase::Idle,
            kind: TransitionKind::MapLoad,
            from: (0, 0, 0),
            to: (0, 0, 0),
            pose_at_start: None,
            map_ready: false,
            destination_ready: None,
            membership_ready: None,
            flags: no_flags_exec(),
            stalled: false,
            stall_logged: false,
        }
    }

    pub fn phase(&self) -> (p: FadePhase)
        ensures
            p == self@.phase,
    {
        self.phase
    }

    pub fn is_idle(&self) -> (b: bool)
        ensures
            b == (self@.phase == FadePhase::Idle),
    {
        self.phase == FadePhase::Idle
    }

    pub fn kind(&self) -> (k: TransitionKind)
        ensures
            k == self@.kind,
    {
        self.kind
    }

    pub fn dest_address(&self) -> (a: (u32, u32, u32))
        ensures
            a == self@.to,
    {
        self.to
    }

    pub fn source_address(&self) -> (a: (u32, u32, u32))
        ensures
            a == self@.from,
    {
        self.from
    }

    pub fn pose_at_start(&self) -> (p: Option<P>)
        ensures
            p == self@.pose_at_start,
    {
        self.pose_at_start
    }

    pub fn stalled(&self) -> (b: bool)
        ensures
            b == self@.stalled,
    {
        self.stalled
    }

    pub fn flags(&self) -> (f: ReadinessFlags)
        ensures
            f == self@.flags,
    {
        self.flags
    }

    pub fn set_flags(&mut self, flags: ReadinessFlags)
        ensures
            final(self)@ == (FadeModel { flags, ..old(self)@ }),
    {
        proof {
            use_type_invariant(&*self);
        }
        self.flags = flags;
    }

    /// Start FadeOut, only from Idle. Returns whether a new fade began.
    pub fn begin_transition(
        &mut self,
        kind: TransitionKind,
        from: (u32, u32, u32),
        to: (u32, u32, u32),
        pose: Option<P>,
    ) -> (began: bool)
        ensures
            began == (old(self)@.phase == FadePhase::Idle),
            began ==> final(self)@ == (FadeModel {
                phase: FadePhase::Out,
                kind,
                from,
                to,
                pose_at_start: pose,
                map_ready: false,
                destination_ready: None,
                membership_ready: None,
                flags: no_flags(),
                stalled: false,
                stall_logged: false,
            }),
            !began ==> final(self)@ == old(self)@,
    {
        proof {
            use_type_invariant(&*self);
        }
        if !self.is_idle() {
            return false;
        }
        self.phase = FadePhase::Out;
        self.kind = kind;
        self.from = from;
        self.to = to;
        self.pose_at_start = pose;
        self.map_ready = false;
        self.destination_ready = None;
        self.membership_ready = None;
        self.flags = no_flags_exec();
        self.stalled = false;
        self.stall_logged = false;
        true
    }

    /// Map destination ready; ignored when idle or for a membership fade.
    pub fn notify_destination_ready(&mut self, ready: DestinationReady<P>)
        ensures
            (old(self)@.phase == FadePhase::Idle || old(self)@.kind != TransitionKind::MapLoad)
                ==> final(self)@ == old(self)@,
            !(old(self)@.phase == FadePhase::Idle || old(self)@.kind != TransitionKind::MapLoad)
                ==> final(self)@ == (FadeModel {
                destination_ready: Some(ready),
                map_ready: true,
                ..old(self)@
            }),
    {
        proof {
            use_type_invariant(&*self);
        }
        if self.phase == FadePhase::Idle || self.kind != TransitionKind::MapLoad {
            return ;
        }
        self.destination_ready = Some(ready);
        self.map_ready = true;
    }

    /// Membership destination ready; ignored when idle or for a map fade.
    pub fn notify_membership_ready(&mut self, ready: MembershipReady)
        ensures
            (old(self)@.phase == FadePhase::Idle || old(self)@.kind != TransitionKind::Membership)
                ==> final(self)@ == old(self)@,
            !(old(self)@.phase == FadePhase::Idle || old(self)@.kind
                != TransitionKind::Membership) ==> final(self)@ == (FadeModel {
                membership_ready: Some(ready),
                map_ready: true,
                ..old(self)@
            }),
    {
        proof {
            use_type_invariant(&*self);
        }
        if self.phase == FadePhase::Idle || self.kind != TransitionKind::Membership {
            return ;
        }
        self.membership_ready = Some(ready);
        self.map_ready = true;
    }

    pub fn destination_ready(&self) -> (r: Option<DestinationReady<P>>)
        ensures
            r == self@.destination_ready,
    {
        self.destination_ready
    }

    pub fn membership_ready(&self) -> (r: Option<MembershipReady>)
        ensures
            r == self@.membership_ready,
    {
        self.membership_ready
    }

    pub fn presentation_ready(&self) -> (b: bool)
        ensures
            b == ready_spec(self@),
    {
        match self.kind {
            TransitionKind::MapLoad => self.destination_ready.is_some(),
            TransitionKind::Membership => self.membership_ready.is_some(),
        }
    }

    pub fn debug_phase(&self) -> (s: &'static str)
        ensures
            s@ == (match self@.phase {
                FadePhase::Idle => "Idle"@,
                FadePhase::Out => "FadeOut"@,
                FadePhase::Hold => "Hold"@,
                FadePhase::In => "FadeIn"@,
            }),
    {
        match self.phase {
            FadePhase::Idle => "Idle",
            FadePhase::Out => "FadeOut",
            FadePhase::Hold => "Hold",
            FadePhase::In => "FadeIn",
        }
    }

    pub fn debug_banner(&self) -> (b: Option<String>)
        ensures
            match banner_spec(self@) {
                Some(t) => b is Some && b->0@ == t,
                None => b is None,
            },
    {
        if self.phase == FadePhase::Idle {
            return None;
        }
        let mut text = match self.kind {
            TransitionKind::MapLoad => crate::text::owned("MAP TRANSITION"),
            TransitionKind::Membership => crate::text::owned(membership_banner(self.from, self.to)),
        };
        crate::text::append_str(&mut text, " · ");
        let ready = self.presentation_ready();
        let step = match self.phase {
            FadePhase::Out => "FadeOut",
            FadePhase::Hold => if ready {
                "Hold"
            } else {
                match self.kind {
                    TransitionKind::MapLoad => "Waiting DestinationReady",
                    TransitionKind::Membership => "Waiting MembershipReady",
                }
            },
            _ => "FadeIn",
        };
        crate::text::append_str(&mut text, step);
        if self.stalled {
            crate::text::append_str(&mut text, " · STALLED");
        }
        Some(text)
    }

    /// A rejected request after a speculative fade fades back in; a map fade
    /// with no destination counts as ready.
    pub fn abort_to_in(&mut self, placeholder: DestinationReady<P>)
        ensures
            old(self)@.phase == FadePhase::Idle ==> final(self)@ == old(self)@,
            old(self)@.phase != FadePhase::Idle ==> final(self)@ == (FadeModel {
                phase: FadePhase::In,
                destination_ready: if old(self)@.destination_ready is None && old(self)@.kind
                    == TransitionKind::MapLoad {
                    Some(placeholder)
                } else {
                    old(self)@.destination_ready
                },
                map_ready: true,
                ..old(self)@
            }),
    {
        proof {
            use_type_invariant(&*self);
        }
        if self.phase == FadePhase::Idle {
            return ;
        }
        self.phase = FadePhase::In;
        if self.destination_ready.is_none() && self.kind == TransitionKind::MapLoad {
            self.destination_ready = Some(placeholder);
        }
        self.map_ready = true;
    }

    /// Idle or fully black: a map baseline rebuild / membership retarget may
    /// be shown. Reveal still waits for readiness.
    pub fn allows_baseline_swap(&self) -> (b: bool)
        ensures
            b == (self@.phase == FadePhase::Idle || self@.phase == FadePhase::Hold),
    {
        self.phase == FadePhase::Idle || self.phase == FadePhase::Hold
    }

    /// FadeOut and Hold lock gameplay movement; FadeIn is the unlock boundary.
    pub fn gameplay_input_locked(&self) -> (b: bool)
        ensures
            b == (self@.phase == FadePhase::Out || self@.phase == FadePhase::Hold),
    {
        self.phase == FadePhase::Out || self.phase == FadePhase::Hold
    }

    /// Hold: the overlay is fully black; the presentation commit boundary.
    pub fn is_fully_black(&self) -> (b: bool)
        ensures
            b == (self@.phase == FadePhase::Hold),
    {
        self.phase == FadePhase::Hold
    }

    pub fn is_fading_in(&self) -> (b: bool)
        ensures
            b == (self@.phase == FadePhase::In),
    {
        self.phase == FadePhase::In
    }

    /// FadeOut is still visible: the source presentation stays on screen.
    pub fn holds_source_presentation(&self) -> (b: bool)
        ensures
            b == (self@.phase == FadePhase::Out),
    {
        self.phase == FadePhase::Out
    }

    /// One timer step; see [`tick_spec`].
    pub fn tick(&mut self, phase_time_reached: bool, stall_time_reached: bool) -> (step: FadeStep)
        ensures
            (final(self)@, step) == tick_spec(old(self)@, phase_time_reached, stall_time_reached),
            fade_wf(old(self)@),
            fade_wf(final(self)@),
    {
        proof {
            use_type_invariant(&*self);
        }
        match self.phase {
            FadePhase::Idle => FadeStep { phase_changed: false, stall_report: false },
            FadePhase::Out => {
                if phase_time_reached {
                    self.phase = FadePhase::Hold;
                    FadeStep { phase_changed: true, stall_report: false }
                } else {
                    FadeStep { phase_changed: false, stall_report: false }
                }
            },
            FadePhase::Hold => {
                let ready = self.presentation_ready();
                let mut report = false;
                if stall_time_reached && !ready {
                    if !self.stall_logged {
                        self.stall_logged = true;
                        report = true;
                    }
                    self.stalled = true;
                }
                if phase_time_reached && ready && !self.stalled {
                    self.phase = FadePhase::In;
                    FadeStep { phase_changed: true, stall_report: report }
                } else {
                    FadeStep { phase_changed: false, stall_report: report }
                }
            },
            FadePhase::In => {
                if phase_time_reached {
                    self.phase = FadePhase::Idle;
                    self.map_ready = false;
                    self.destination_ready = None;
                    self.membership_ready = None;
                    self.stalled = false;
                    self.stall_logged = false;
                    FadeStep { phase_changed: true, stall_report: false }
                } else {
                    FadeStep { phase_changed: false, stall_report: false }
                }
            },
        }
    }
}

fn no_flags_exec() -> (f: ReadinessFlags)
    ensures
        f == no_flags(),
{
    ReadinessFlags {
        observer_accepted: false,
        epoch_applied: false,
        geometry_ready: false,
        self_baseline: false,
        local_seeded: false,
        prediction_synced: false,
        camera_ready: false,
        old_replicas_cleared: false,
        presentation_matches: false,
        session_closed: false,
    }
}

/// Reveal waits for readiness: from the black hold the fade moves on to
/// FadeIn only when the destination of its kind is ready and it has not
/// stalled; once stalled it never fades in, whatever arrives later.
pub proof fn lemma_reveal_waits_for_readiness<P>(
    m: FadeModel<P>,
    phase_time_reached: bool,
    stall_time_reached: bool,
)
    requires
        m.phase == FadePhase::Hold,
    ensures
        tick_spec(m, phase_time_reached, stall_time_reached).0.phase == FadePhase::In ==> ready_spec(m)
            && !m.stalled && phase_time_reached,
        m.stalled ==> tick_spec(m, phase_time_reached, stall_time_reached).0.phase == FadePhase::Hold,
        tick_spec(m, phase_time_reached, stall_time_reached).0.phase != FadePhase::Idle,
{
}

/// A stall is reported at most once per fade.
pub proof fn lemma_stall_reported_once<P>(m: FadeModel<P>, a: bool, b: bool, c: bool, d: bool)
    ensures
        tick_spec(m, a, b).1.stall_report ==> !tick_spec(tick_spec(m, a, b).0, c, d).1.stall_report,
{
}

/// Gameplay stays locked from the start of a fade until FadeIn: a step
/// from FadeOut or Hold lands in FadeOut, Hold or FadeIn, never Idle.
pub proof fn lemma_locked_until_fade_in<P>(m: FadeModel<P>, a: bool, b: bool)
    requires
        m.phase == FadePhase::Out || m.phase == FadePhase::Hold,
    ensures
        tick_spec(m, a, b).0.phase != FadePhase::Idle,
        m.phase == FadePhase::Out ==> tick_spec(m, a, b).0.phase != FadePhase::In,
{
}

/// A flag set has nothing missing exactly when every required flag is set.
pub proof fn lemma_missing_empty_iff_all_set(pairs: Seq<(Seq<char>, bool)>)
    ensures
        (missing_names(pairs).len() == 0) == all_set(pairs),
    decreases pairs.len(),
{
    if pairs.len() > 0 {
        lemma_missing_empty_iff_all_set(pairs.drop_last());
        if all_set(pairs) {
            assert forall|i: int| 0 <= i < pairs.drop_last().len() implies #[trigger] pairs.drop_last()[i].1 by {
                assert(pairs[i].1);
            }
        } else if pairs.last().1 {
            let k = choose|i: int| 0 <= i < pairs.len() && !#[trigger] pairs[i].1;
            assert(!pairs.drop_last()[k].1);
        }
    }
}

/// `map_complete` holds exactly when the Map report has no missing flag, and
/// `membership_complete` exactly when the Membership report has none.
pub proof fn lemma_complete_matches_report(f: ReadinessFlags)
    ensures
        (missing_names(flag_pairs(f, TransitionKind::MapLoad)).len() == 0) == (f.observer_accepted
            && f.epoch_applied && f.geometry_ready && f.self_baseline && f.local_seeded
            && f.prediction_synced && f.camera_ready && f.old_replicas_cleared
            && f.presentation_matches),
        (missing_names(flag_pairs(f, TransitionKind::Membership)).len() == 0) == (
        f.observer_accepted && f.epoch_applied && f.self_baseline && f.local_seeded
            && f.old_replicas_cleared && f.presentation_matches && f.session_closed),
{
    let pm = flag_pairs(f, TransitionKind::MapLoad);
    let pb = flag_pairs(f, TransitionKind::Membership);
    lemma_missing_empty_iff_all_set(pm);
    lemma_missing_empty_iff_all_set(pb);
    if f.observer_accepted && f.epoch_applied && f.geometry_ready && f.self_baseline
        && f.local_seeded && f.prediction_synced && f.camera_ready && f.old_replicas_cleared
        && f.presentation_matches {
        assert forall|i: int| 0 <= i < pm.len() implies #[trigger] pm[i].1 by {}
    } else {
        assert(!all_set(pm)) by {
            if !f.observer_accepted { assert(!pm[0].1); }
            if !f.epoch_applied { assert(!pm[1].1); }
            if !f.geometry_ready { assert(!pm[2].1); }
            if !f.self_baseline { assert(!pm[3].1); }
            if !f.local_seeded { assert(!pm[4].1); }
            if !f.prediction_synced { assert(!pm[5].1); }
            if !f.camera_ready { assert(!pm[6].1); }
            if !f.old_replicas_cleared { assert(!pm[7].1); }
            if !f.presentation_matches { assert(!pm[8].1); }
        }
    }
    if f.observer_accepted && f.epoch_applied && f.self_baseline && f.local_seeded
        && f.old_replicas_cleared && f.presentation_matches && f.session_closed {
        assert forall|i: int| 0 <= i < pb.len() implies #[trigger] pb[i].1 by {}
    } else {
        assert(!all_set(pb)) by {
            if !f.observer_accepted { assert(!pb[0].1); }
            if !f.epoch_applied { assert(!pb[1].1); }
            if !f.self_baseline { assert(!pb[2].1); }
            if !f.local_seeded { assert(!pb[3].1); }
            if !f.old_replicas_cleared { assert(!pb[4].1); }
            if !f.presentation_matches { assert(!pb[5].1); }
            if !f.session_closed { assert(!pb[6].1); }
        }
    }
}

proof fn lemma_missing_names_nonempty(pairs: Seq<(Seq<char>, bool)>)
    requires
        forall|i: int| 0 <= i < pairs.len() ==> #[trigger] pairs[i].0.len() > 0,
    ensures
        forall|j: int|
            0 <= j < missing_names(pairs).len() ==> #[trigger] missing_names(pairs)[j].len() > 0,
    decreases pairs.len(),
{
    if pairs.len() > 0 {
        let d = pairs.drop_last();
        assert forall|i: int| 0 <= i < d.len() implies #[trigger] d[i].0.len() > 0 by {
            assert(d[i] == pairs[i]);
        }
        lemma_missing_names_nonempty(d);
        let rest = missing_names(d);
        let names = missing_names(pairs);
        assert(pairs.last() == pairs[pairs.len() - 1]);
        assert forall|j: int| 0 <= j < names.len() implies #[trigger] names[j].len() > 0 by {
            if !pairs.last().1 && j == rest.len() {
                assert(names[j] == pairs[pairs.len() - 1].0);
            } else {
                assert(names[j] == rest[j]);
            }
        }
    }
}

proof fn lemma_join_nonempty(parts: Seq<Seq<char>>, sep: Seq<char>)
    requires
        parts.len() > 0,
        parts.last().len() > 0,
    ensures
        join(parts, sep).len() > 0,
{
    if parts.len() > 1 {
        assert(join(parts, sep) == join(parts.drop_last(), sep) + sep + parts.last());
    }
}

/// The missing-flag report is empty exactly when the transition kind's flag
/// set is complete: `missing_csv(MapLoad)` with `map_complete`, and
/// `missing_csv(Membership)` with `membership_complete`.
pub proof fn lemma_missing_csv_empty_iff_complete(f: ReadinessFlags)
    ensures
        (join(missing_names(flag_pairs(f, TransitionKind::MapLoad)), seq![',']).len() == 0) == (
        f.observer_accepted && f.epoch_applied && f.geometry_ready && f.self_baseline
            && f.local_seeded && f.prediction_synced && f.camera_ready && f.old_replicas_cleared
            && f.presentation_matches),
        (join(missing_names(flag_pairs(f, TransitionKind::Membership)), seq![',']).len() == 0)
            == (f.observer_accepted && f.epoch_applied && f.self_baseline && f.local_seeded
            && f.old_replicas_cleared && f.presentation_matches && f.session_closed),
{
    reveal_strlit("observer_accepted");
    reveal_strlit("epoch_applied");
    reveal_strlit("geometry_ready");
    reveal_strlit("self_baseline");
    reveal_strlit("local_seeded");
    reveal_strlit("prediction_synced");
    reveal_strlit("camera_ready");
    reveal_strlit("old_replicas_cleared");
    reveal_strlit("presentation_matches");
    reveal_strlit("session_closed");
    lemma_complete_matches_report(f);
    let kinds = seq![TransitionKind::MapLoad, TransitionKind::Membership];
    assert forall|k: int| 0 <= k < 2 implies {
        let names = missing_names(flag_pairs(f, #[trigger] kinds[k]));
        (join(names, seq![',']).len() == 0) == (names.len() == 0)
    } by {
        let pairs = flag_pairs(f, kinds[k]);
        assert forall|i: int| 0 <= i < pairs.len() implies #[trigger] pairs[i].0.len() > 0 by {}
        lemma_missing_names_nonempty(pairs);
        let names = missing_names(pairs);
        if names.len() > 0 {
            assert(names.last().len() > 0);
            lemma_join_nonempty(names, seq![',']);
        }
    }
    assert(kinds[0] == TransitionKind::MapLoad);
    assert(kinds[1] == TransitionKind::Membership);
}

/// A step keeps a stalled fade's stall logged.
pub proof fn lemma_tick_keeps_fade_wf<P>(m: FadeModel<P>, a: bool, b: bool)
    requires
        fade_wf(m),
    ensures
        fade_wf(tick_spec(m, a, b).0),
{
}

/// Phase safety of one step from any fade: FadeIn is reached only from
/// FadeIn or from a black hold whose destination is ready and which has not
/// stalled; FadeOut moves on only to the black hold; a stalled hold stays a
/// stalled hold; and a stall report comes only on the step that stalls.
pub proof fn lemma_fade_phase_safety<P>(m: FadeModel<P>, a: bool, b: bool)
    requires
        fade_wf(m),
    ensures
        ({
            let (n, step) = tick_spec(m, a, b);
            &&& n.phase == FadePhase::In ==> m.phase == FadePhase::In || (m.phase
                == FadePhase::Hold && ready_spec(m) && !m.stalled)
            &&& m.phase == FadePhase::Out ==> n.phase == FadePhase::Out || n.phase
                == FadePhase::Hold
            &&& m.stalled && m.phase == FadePhase::Hold ==> n.stalled && n.phase
                == FadePhase::Hold
            &&& step.stall_report ==> !m.stalled && n.stalled
        }),
{
}

/// A phase ends only when its time is up: a step whose phase duration has
/// not elapsed keeps the phase (FadeIn stays FadeIn, the fade never drops to
/// Idle early) and reports no phase change.
pub proof fn lemma_phase_changes_only_when_time_reached<P>(m: FadeModel<P>, stall_time_reached: bool)
    ensures
        tick_spec(m, false, stall_time_reached).0.phase == m.phase,
        !tick_spec(m, false, stall_time_reached).1.phase_changed,
        m.phase == FadePhase::In ==> tick_spec(m, false, stall_time_reached).0 == m,
{
}

} // verus!
