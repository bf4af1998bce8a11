//! Privileged one-shot debug commands and the cadence of continuous tuning.
//!
//! The overlay sets request fields; the app drains them once per frame into an
//! ordered list of commands. Slider values are the caller's (they are floats):
//! it hands in, per continuous control, the sanitized value, whether it differs
//! from the last value sent, and its wire form in hundredths.

use vstd::prelude::*;
use vstd::seq_lib::lemma_concat_associative;
use crate::display::{RenderScale, Resolution};

verus! {

/// Minimum spacing, in milliseconds, between two continuous tuning sends.
pub const DEBUG_TUNING_SEND_INTERVAL_MS: u64 = 150;

/// Client-owned DEV commands, in the order a drain emits them.
///
/// `C` is the content id an NPC spawn names, `I` an item instance id, `M` the
/// world MSAA setting; the library only carries them.
#[derive(Clone, Copy, Debug, PartialEq, Eq)]
pub enum DebugCommand<C, I, M> {
    /// Client-only prediction reanchor to the replica. Not a spawn reset.
    ResetPlayer,
    /// Connected: server spawn reset. Offline: local spawn reset.
    ResetToSpawn,
    Respawn,
    Connect,
    Disconnect,
    SetChannel(u32),
    SetMoveSpeed(Option<u16>),
    SetJumpSpeed(Option<u16>),
    /// A server-authoritative transient NPC at the current player pose.
    SpawnNpc(C),
    SetResolution(Resolution),
    SetRenderScale(RenderScale),
    SetWorldMsaa(M),
    PresentationAttack,
    PresentationHurt,
    Equip(&'static str),
    EquipItem(I),
    UnequipSlot(u8),
    UnequipAll,
    AnimationPlay,
    AnimationPause,
    AnimationReset,
    DumpJitterTrace,
    ImpairmentStall { ms: u32 },
    ResetImpairmentMetrics,
    ClearNetworkHistory,
    CenterOnPlayer,
}

/// One continuous tuning control as the caller sees it when draining.
#[derive(Clone, Copy, Debug)]
pub struct TuningSample<V> {
    /// The sanitized current value.
    pub value: V,
    /// Whether `value` differs from the last value sent.
    pub pending: bool,
    /// `value` in hundredths, rounded, as the wire carries it.
    pub centi: u16,
}

/// Which continuous control a drain sends, if any.
#[derive(Clone, Copy, Debug, PartialEq, Eq, Structural)]
pub enum TuningSend {
    Nothing,
    Speed,
    Jump,
}

/// One-shot requests from the overlay, and the shared cadence of the two
/// continuous tuning controls (move speed and jump speed, values of type `V`).
#[derive(Clone, Copy, Debug)]
pub struct DebugRequests<V, I, M> {
    pub center_on_player: bool,
    pub requested_resolution: Option<Resolution>,
    pub requested_render_scale: Option<RenderScale>,
    pub network_connect: bool,
    pub network_disconnect: bool,
    pub request_channel: Option<u32>,
    pub request_presentation_attack: bool,
    pub request_presentation_hurt: bool,
    pub clear_network_history: bool,
    pub request_animation_play: bool,
    pub request_animation_pause: bool,
    pub request_animation_reset: bool,
    pub requested_world_msaa: Option<M>,
    pub dump_jitter_trace: bool,
    pub impairment_stall_ms: Option<u32>,
    pub reset_impairment_metrics: bool,
    pub request_debug_equip: Option<&'static str>,
    pub request_debug_equip_item: Option<I>,
    pub request_debug_unequip_slot: Option<u8>,
    pub request_debug_unequip_all: bool,
    pub debug_move_speed_reset_requested: bool,
    pub last_sent_debug_move_speed: Option<V>,
    pub debug_jump_speed_reset_requested: bool,
    pub last_sent_debug_jump_speed: Option<V>,
    /// Earliest time (ms) of the next continuous send; `None` sends at once.
    pub debug_tuning_next_send_at: Option<u64>,
    /// Round-robin tie-breaker when both continuous controls are pending.
    pub debug_tuning_send_speed_next: bool,
}

/// A one-element sequence when `b` holds, else the empty sequence.
#[verifier::opaque]
pub open spec fn seq_when<T>(b: bool, x: T) -> Seq<T> {
    if b {
        seq![x]
    } else {
        Seq::empty()
    }
}

/// The value an option holds, as a sequence of at most one.
#[verifier::opaque]
pub open spec fn opt_seq<T>(o: Option<T>) -> Seq<T> {
    match o {
        Some(x) => seq![x],
        None => Seq::empty(),
    }
}

/// Whether the cadence allows a continuous send at `now`.
pub open spec fn tuning_due(next: Option<u64>, now: u64) -> bool {
    match next {
        None => true,
        Some(deadline) => now >= deadline,
    }
}

impl<V, I, M> DebugRequests<V, I, M> {
    /// No request pending; nothing sent yet; speed goes first on a tie.
    pub fn new() -> (r: Self)
        ensures
            r.is_idle(),
            r.last_sent_debug_move_speed.is_none(),
            r.last_sent_debug_jump_speed.is_none(),
            r.debug_tuning_next_send_at.is_none(),
            r.debug_tuning_send_speed_next,
    {
        DebugRequests {
            center_on_player: false,
            requested_resolution: None,
            requested_render_scale: None,
            network_connect: false,
            network_disconnect: false,
            request_channel: None,
            request_presentation_attack: false,
            request_presentation_hurt: false,
            clear_network_history: false,
            request_animation_play: false,
            request_animation_pause: false,
            request_animation_reset: false,
            requested_world_msaa: None,
            dump_jitter_trace: false,
            impairment_stall_ms: None,
            reset_impairment_metrics: false,
            request_debug_equip: None,
            request_debug_equip_item: None,
            request_debug_unequip_slot: None,
            request_debug_unequip_all: false,
            debug_move_speed_reset_requested: false,
            last_sent_debug_move_speed: None,
            debug_jump_speed_reset_requested: false,
            last_sent_debug_jump_speed: None,
            debug_tuning_next_send_at: None,
            debug_tuning_send_speed_next: true,
        }
    }

    /// No one-shot request is pending (the cadence state is not looked at).
    pub open spec fn is_idle(self) -> bool {
        &&& !self.center_on_player
        &&& self.requested_resolution.is_none()
        &&& self.requested_render_scale.is_none()
        &&& !self.network_connect
        &&& !self.network_disconnect
        &&& self.request_channel.is_none()
        &&& !self.request_presentation_attack
        &&& !self.request_presentation_hurt
        &&& !self.clear_network_history
        &&& !self.request_animation_play
        &&& !self.request_animation_pause
        &&& !self.request_animation_reset
        &&& self.requested_world_msaa.is_none()
        &&& !self.dump_jitter_trace
        &&& self.impairment_stall_ms.is_none()
        &&& !self.reset_impairment_metrics
        &&& self.request_debug_equip.is_none()
        &&& self.request_debug_equip_item.is_none()
        &&& self.request_debug_unequip_slot.is_none()
        &&& !self.request_debug_unequip_all
        &&& !self.debug_move_speed_reset_requested
        &&& !self.debug_jump_speed_reset_requested
    }

    /// Ask for the move speed to go back to its default on the next drain,
    /// bypassing the cadence. The caller resets its own slider.
    pub fn request_debug_move_speed_reset(&mut self)
        ensures
            *final(self) == (DebugRequests { debug_move_speed_reset_requested: true, ..*old(self) }),
    {
        self.debug_move_speed_reset_requested = true;
    }

    /// Ask for the jump speed to go back to its default on the next drain,
    /// bypassing the cadence. The caller resets its own slider.
    pub fn request_debug_jump_speed_reset(&mut self)
        ensures
            *final(self) == (DebugRequests { debug_jump_speed_reset_requested: true, ..*old(self) }),
    {
        self.debug_jump_speed_reset_requested = true;
    }

    /// Which continuous control a drain at `now` sends: none when a reset was
    /// sent or the cadence forbids a send; otherwise the pending one, and on a tie the
    /// one whose turn it is.
    pub open spec fn tuning_choice(self, now: u64, speed_pending: bool, jump_pending: bool) -> TuningSend {
        if self.debug_move_speed_reset_requested || self.debug_jump_speed_reset_requested {
            TuningSend::Nothing
        } else if !tuning_due(self.debug_tuning_next_send_at, now) {
            TuningSend::Nothing
        } else if speed_pending && (!jump_pending || self.debug_tuning_send_speed_next) {
            TuningSend::Speed
        } else if jump_pending {
            TuningSend::Jump
        } else {
            TuningSend::Nothing
        }
    }

    /// The commands a drain emits, in order: network, tuning, display,
    /// presentation and equipment, then tools.
    pub open spec fn drain_output<C>(
        self,
        now: u64,
        speed: TuningSample<V>,
        jump: TuningSample<V>,
    ) -> Seq<DebugCommand<C, I, M>> {
        self.network_commands() + self.tuning_commands(now, speed, jump) + self.display_commands()
            + self.presentation_commands() + self.tool_commands()
    }

    /// Connect, disconnect, then the channel request.
    #[verifier::opaque]
    pub open spec fn network_commands<C>(self) -> Seq<DebugCommand<C, I, M>> {
        seq_when(self.network_connect, DebugCommand::Connect)
            + seq_when(self.network_disconnect, DebugCommand::Disconnect)
            + opt_seq(match self.request_channel { Some(c) => Some(DebugCommand::SetChannel(c)), None => None })
    }

    /// Resets first, then at most one continuous value.
    #[verifier::opaque]
    pub open spec fn tuning_commands<C>(
        self,
        now: u64,
        speed: TuningSample<V>,
        jump: TuningSample<V>,
    ) -> Seq<DebugCommand<C, I, M>> {
        let choice = self.tuning_choice(now, speed.pending, jump.pending);
        seq_when(self.debug_move_speed_reset_requested, DebugCommand::SetMoveSpeed(None))
            + seq_when(self.debug_jump_speed_reset_requested, DebugCommand::SetJumpSpeed(None))
            + seq_when(choice == TuningSend::Speed, DebugCommand::SetMoveSpeed(Some(speed.centi)))
            + seq_when(choice == TuningSend::Jump, DebugCommand::SetJumpSpeed(Some(jump.centi)))
    }

    /// Resolution, render scale, then world MSAA.
    #[verifier::opaque]
    pub open spec fn display_commands<C>(self) -> Seq<DebugCommand<C, I, M>> {
        opt_seq(match self.requested_resolution { Some(r) => Some(DebugCommand::SetResolution(r)), None => None })
            + opt_seq(match self.requested_render_scale { Some(s) => Some(DebugCommand::SetRenderScale(s)), None => None })
            + opt_seq(match self.requested_world_msaa { Some(m) => Some(DebugCommand::SetWorldMsaa(m)), None => None })
    }

    /// Attack, hurt, then the equipment requests.
    #[verifier::opaque]
    pub open spec fn presentation_commands<C>(self) -> Seq<DebugCommand<C, I, M>> {
        seq_when(self.request_presentation_attack, DebugCommand::PresentationAttack)
            + seq_when(self.request_presentation_hurt, DebugCommand::PresentationHurt)
            + opt_seq(match self.request_debug_equip { Some(e) => Some(DebugCommand::Equip(e)), None => None })
            + opt_seq(match self.request_debug_equip_item { Some(i) => Some(DebugCommand::EquipItem(i)), None => None })
            + opt_seq(match self.request_debug_unequip_slot { Some(s) => Some(DebugCommand::UnequipSlot(s)), None => None })
            + seq_when(self.request_debug_unequip_all, DebugCommand::UnequipAll)
    }

    /// Animation, jitter dump, impairment, history and camera requests.
    #[verifier::opaque]
    pub open spec fn tool_commands<C>(self) -> Seq<DebugCommand<C, I, M>> {
        seq_when(self.request_animation_play, DebugCommand::AnimationPlay)
            + seq_when(self.request_animation_pause, DebugCommand::AnimationPause)
            + seq_when(self.request_animation_reset, DebugCommand::AnimationReset)
            + seq_when(self.dump_jitter_trace, DebugCommand::DumpJitterTrace)
            + opt_seq(match self.impairment_stall_ms { Some(ms) => Some(DebugCommand::ImpairmentStall { ms }), None => None })
            + seq_when(self.reset_impairment_metrics, DebugCommand::ResetImpairmentMetrics)
            + seq_when(self.clear_network_history, DebugCommand::ClearNetworkHistory)
            + seq_when(self.center_on_player, DebugCommand::CenterOnPlayer)
    }

    /// The state a drain leaves: every one-shot request taken; the last sent
    /// values, the turn and the next send time updated by what was sent.
    pub open spec fn drained(
        self,
        now: u64,
        speed: TuningSample<V>,
        jump: TuningSample<V>,
        speed_default: V,
        jump_default: V,
    ) -> Self {
        let choice = self.tuning_choice(now, speed.pending, jump.pending);
        let sent = self.debug_move_speed_reset_requested || self.debug_jump_speed_reset_requested
            || choice != TuningSend::Nothing;
        DebugRequests {
            center_on_player: false,
            requested_resolution: None,
            requested_render_scale: None,
            network_connect: false,
            network_disconnect: false,
            request_channel: None,
            request_presentation_attack: false,
            request_presentation_hurt: false,
            clear_network_history: false,
            request_animation_play: false,
            request_animation_pause: false,
            request_animation_reset: false,
            requested_world_msaa: None,
            dump_jitter_trace: false,
            impairment_stall_ms: None,
            reset_impairment_metrics: false,
            request_debug_equip: None,
            request_debug_equip_item: None,
            request_debug_unequip_slot: None,
            request_debug_unequip_all: false,
            debug_move_speed_reset_requested: false,
            last_sent_debug_move_speed: if self.debug_move_speed_reset_requested {
                Some(speed_default)
            } else if choice == TuningSend::Speed {
                Some(speed.value)
            } else {
                self.last_sent_debug_move_speed
            },
            debug_jump_speed_reset_requested: false,
            last_sent_debug_jump_speed: if self.debug_jump_speed_reset_requested {
                Some(jump_default)
            } else if choice == TuningSend::Jump {
                Some(jump.value)
            } else {
                self.last_sent_debug_jump_speed
            },
            debug_tuning_next_send_at: if sent {
                Some((now + DEBUG_TUNING_SEND_INTERVAL_MS) as u64)
            } else {
                self.debug_tuning_next_send_at
            },
            debug_tuning_send_speed_next: if choice == TuningSend::Speed {
                false
            } else if choice == TuningSend::Jump {
                true
            } else {
                self.debug_tuning_send_speed_next
            },
        }
    }
}

proof fn lemma_push_when<T>(o: Seq<T>, b: bool, x: T)
    ensures
        (if b { o.push(x) } else { o }) == o + seq_when(b, x),
{
    reveal(seq_when);
    if b {
        assert(o.push(x) =~= o + seq![x]);
    } else {
        assert(o =~= o + Seq::<T>::empty());
    }
}

proof fn lemma_push_opt<T>(o: Seq<T>, v: Option<T>)
    ensures
        (match v {
            Some(x) => o.push(x),
            None => o,
        }) == o + opt_seq(v),
{
    reveal(opt_seq);
    match v {
        Some(x) => {
            assert(o.push(x) =~= o + seq![x]);
        },
        None => {
            assert(o =~= o + Seq::<T>::empty());
        },
    }
}

impl<V: Copy, I: Copy, M: Copy> DebugRequests<V, I, M> {
    /// Push the network requests, in order.
    fn push_network<C>(&self, out: &mut Vec<DebugCommand<C, I, M>>)
        ensures
            final(out)@ == old(out)@ + self.network_commands::<C>(),
    {
        let ghost o0 = out@;
        let ghost o = out@;
        if self.network_connect {
            out.push(DebugCommand::Connect);
        }
        proof { lemma_push_when(o, self.network_connect, DebugCommand::<C, I, M>::Connect); }
        let ghost mut g = seq_when(self.network_connect, DebugCommand::<C, I, M>::Connect);
        let ghost o = out@;
        if self.network_disconnect {
            out.push(DebugCommand::Disconnect);
        }
        proof {
            lemma_push_when(o, self.network_disconnect, DebugCommand::<C, I, M>::Disconnect);
            lemma_concat_associative(o0, g, seq_when(self.network_disconnect, DebugCommand::<C, I, M>::Disconnect));
            g = g + seq_when(self.network_disconnect, DebugCommand::<C, I, M>::Disconnect);
        }
        let ghost o = out@;
        let cmd = match self.request_channel {
            Some(c) => Some(DebugCommand::SetChannel(c)),
            None => None,
        };
        if let Some(c) = cmd {
            out.push(c);
        }
        proof {
            lemma_push_opt(o, cmd);
            lemma_concat_associative(o0, g, opt_seq(cmd));
            g = g + opt_seq(cmd);
        }
        proof { reveal(DebugRequests::network_commands); }
    }

    /// Push the display requests, in order.
    fn push_display<C>(&self, out: &mut Vec<DebugCommand<C, I, M>>)
        ensures
            final(out)@ == old(out)@ + self.display_commands::<C>(),
    {
        let ghost o0 = out@;
        let ghost o = out@;
        let cmd = match self.requested_resolution {
            Some(r) => Some(DebugCommand::SetResolution(r)),
            None => None,
        };
        if let Some(c) = cmd {
            out.push(c);
        }
        proof { lemma_push_opt(o, cmd); }
        let ghost mut g = opt_seq(cmd);
        let ghost o = out@;
        let cmd = match self.requested_render_scale {
            Some(s) => Some(DebugCommand::SetRenderScale(s)),
            None => None,
        };
        if let Some(c) = cmd {
            out.push(c);
        }
        proof {
            lemma_push_opt(o, cmd);
            lemma_concat_associative(o0, g, opt_seq(cmd));
            g = g + opt_seq(cmd);
        }
        let ghost o = out@;
        let cmd = match self.requested_world_msaa {
            Some(m) => Some(DebugCommand::SetWorldMsaa(m)),
            None => None,
        };
        if let Some(c) = cmd {
            out.push(c);
        }
        proof {
            lemma_push_opt(o, cmd);
            lemma_concat_associative(o0, g, opt_seq(cmd));
            g = g + opt_seq(cmd);
        }
        proof { reveal(DebugRequests::display_commands); }
    }

    /// Push the presentation requests, in order.
    fn push_presentation<C>(&self, out: &mut Vec<DebugCommand<C, I, M>>)
        ensures
            final(out)@ == old(out)@ + self.presentation_commands::<C>(),
    {
        let ghost o0 = out@;
        let ghost o = out@;
        if self.request_presentation_attack {
            out.push(DebugCommand::PresentationAttack);
        }
        proof { lemma_push_when(o, self.request_presentation_attack, DebugCommand::<C, I, M>::PresentationAttack); }
        let ghost mut g = seq_when(self.request_presentation_attack, DebugCommand::<C, I, M>::PresentationAttack);
        let ghost o = out@;
        if self.request_presentation_hurt {
            out.push(DebugCommand::PresentationHurt);
        }
        proof {
            lemma_push_when(o, self.request_presentation_hurt, DebugCommand::<C, I, M>::PresentationHurt);
            lemma_concat_associative(o0, g, seq_when(self.request_presentation_hurt, DebugCommand::<C, I, M>::PresentationHurt));
            g = g + seq_when(self.request_presentation_hurt, DebugCommand::<C, I, M>::PresentationHurt);
        }
        let ghost o = out@;
        let cmd = match self.request_debug_equip {
            Some(e) => Some(DebugCommand::Equip(e)),
            None => None,
        };
        if let Some(c) = cmd {
            out.push(c);
        }
        proof {
            lemma_push_opt(o, cmd);
            lemma_concat_associative(o0, g, opt_seq(cmd));
            g = g + opt_seq(cmd);
        }
        let ghost o = out@;
        let cmd = match self.request_debug_equip_item {
            Some(i) => Some(DebugCommand::EquipItem(i)),
            None => None,
        };
        if let Some(c) = cmd {
            out.push(c);
        }
        proof {
            lemma_push_opt(o, cmd);
            lemma_concat_associative(o0, g, opt_seq(cmd));
            g = g + opt_seq(cmd);
        }
        let ghost o = out@;
        let cmd = match self.request_debug_unequip_slot {
            Some(s) => Some(DebugCommand::UnequipSlot(s)),
            None => None,
        };
        if let Some(c) = cmd {
            out.push(c);
        }
        proof {
            lemma_push_opt(o, cmd);
            lemma_concat_associative(o0, g, opt_seq(cmd));
            g = g + opt_seq(cmd);
        }
        let ghost o = out@;
        if self.request_debug_unequip_all {
            out.push(DebugCommand::UnequipAll);
        }
        proof {
            lemma_push_when(o, self.request_debug_unequip_all, DebugCommand::<C, I, M>::UnequipAll);
            lemma_concat_associative(o0, g, seq_when(self.request_debug_unequip_all, DebugCommand::<C, I, M>::UnequipAll));
            g = g + seq_when(self.request_debug_unequip_all, DebugCommand::<C, I, M>::UnequipAll);
        }
        proof { reveal(DebugRequests::presentation_commands); }
    }

    /// Push the tool requests, in order.
    fn push_tools<C>(&self, out: &mut Vec<DebugCommand<C, I, M>>)
        ensures
            final(out)@ == old(out)@ + self.tool_commands::<C>(),
    {
        let ghost o0 = out@;
        let ghost o = out@;
        if self.request_animation_play {
            out.push(DebugCommand::AnimationPlay);
        }
        proof { lemma_push_when(o, self.request_animation_play, DebugCommand::<C, I, M>::AnimationPlay); }
        let ghost mut g = seq_when(self.request_animation_play, DebugCommand::<C, I, M>::AnimationPlay);
        let ghost o = out@;
        if self.request_animation_pause {
            out.push(DebugCommand::AnimationPause);
        }
        proof {
            lemma_push_when(o, self.request_animation_pause, DebugCommand::<C, I, M>::AnimationPause);
            lemma_concat_associative(o0, g, seq_when(self.request_animation_pause, DebugCommand::<C, I, M>::AnimationPause));
            g = g + seq_when(self.request_animation_pause, DebugCommand::<C, I, M>::AnimationPause);
        }
        let ghost o = out@;
        if self.request_animation_reset {
            out.push(DebugCommand::AnimationReset);
        }
        proof {
            lemma_push_when(o, self.request_animation_reset, DebugCommand::<C, I, M>::AnimationReset);
            lemma_concat_associative(o0, g, seq_when(self.request_animation_reset, DebugCommand::<C, I, M>::AnimationReset));
            g = g + seq_when(self.request_animation_reset, DebugCommand::<C, I, M>::AnimationReset);
        }
        let ghost o = out@;
        if self.dump_jitter_trace {
            out.push(DebugCommand::DumpJitterTrace);
        }
        proof {
            lemma_push_when(o, self.dump_jitter_trace, DebugCommand::<C, I, M>::DumpJitterTrace);
            lemma_concat_associative(o0, g, seq_when(self.dump_jitter_trace, DebugCommand::<C, I, M>::DumpJitterTrace));
            g = g + seq_when(self.dump_jitter_trace, DebugCommand::<C, I, M>::DumpJitterTrace);
        }
        let ghost o = out@;
        let cmd = match self.impairment_stall_ms {
            Some(ms) => Some(DebugCommand::ImpairmentStall { ms }),
            None => None,
        };
        if let Some(c) = cmd {
            out.push(c);
        }
        proof {
            lemma_push_opt(o, cmd);
            lemma_concat_associative(o0, g, opt_seq(cmd));
            g = g + opt_seq(cmd);
        }
        let ghost o = out@;
        if self.reset_impairment_metrics {
            out.push(DebugCommand::ResetImpairmentMetrics);
        }
        proof {
            lemma_push_when(o, self.reset_impairment_metrics, DebugCommand::<C, I, M>::ResetImpairmentMetrics);
            lemma_concat_associative(o0, g, seq_when(self.reset_impairment_metrics, DebugCommand::<C, I, M>::ResetImpairmentMetrics));
            g = g + seq_when(self.reset_impairment_metrics, DebugCommand::<C, I, M>::ResetImpairmentMetrics);
        }
        let ghost o = out@;
        if self.clear_network_history {
            out.push(DebugCommand::ClearNetworkHistory);
        }
        proof {
            lemma_push_when(o, self.clear_network_history, DebugCommand::<C, I, M>::ClearNetworkHistory);
            lemma_concat_associative(o0, g, seq_when(self.clear_network_history, DebugCommand::<C, I, M>::ClearNetworkHistory));
            g = g + seq_when(self.clear_network_history, DebugCommand::<C, I, M>::ClearNetworkHistory);
        }
        let ghost o = out@;
        if self.center_on_player {
            out.push(DebugCommand::CenterOnPlayer);
        }
        proof {
            lemma_push_when(o, self.center_on_player, DebugCommand::<C, I, M>::CenterOnPlayer);
            lemma_concat_associative(o0, g, seq_when(self.center_on_player, DebugCommand::<C, I, M>::CenterOnPlayer));
            g = g + seq_when(self.center_on_player, DebugCommand::<C, I, M>::CenterOnPlayer);
        }
        proof { reveal(DebugRequests::tool_commands); }
    }

    /// Drop every one-shot request other than the tuning resets.
    fn clear_one_shots(&mut self)
        ensures
            *final(self) == (DebugRequests {
                center_on_player: false,
                requested_resolution: None,
                requested_render_scale: None,
                network_connect: false,
                network_disconnect: false,
                request_channel: None,
                request_presentation_attack: false,
                request_presentation_hurt: false,
                clear_network_history: false,
                request_animation_play: false,
                request_animation_pause: false,
                request_animation_reset: false,
                requested_world_msaa: None,
                dump_jitter_trace: false,
                impairment_stall_ms: None,
                reset_impairment_metrics: false,
                request_debug_equip: None,
                request_debug_equip_item: None,
                request_debug_unequip_slot: None,
                request_debug_unequip_all: false,
                ..*old(self)
            }),
    {
        self.center_on_player = false;
        self.requested_resolution = None;
        self.requested_render_scale = None;
        self.network_connect = false;
        self.network_disconnect = false;
        self.request_channel = None;
        self.request_presentation_attack = false;
        self.request_presentation_hurt = false;
        self.clear_network_history = false;
        self.request_animation_play = false;
        self.request_animation_pause = false;
        self.request_animation_reset = false;
        self.requested_world_msaa = None;
        self.dump_jitter_trace = false;
        self.impairment_stall_ms = None;
        self.reset_impairment_metrics = false;
        self.request_debug_equip = None;
        self.request_debug_equip_item = None;
        self.request_debug_unequip_slot = None;
        self.request_debug_unequip_all = false;
    }

    /// The continuous control a drain at `now` sends.
    fn choose_tuning(&self, now_ms: u64, speed_pending: bool, jump_pending: bool) -> (c: TuningSend)
        ensures
            c == self.tuning_choice(now_ms, speed_pending, jump_pending),
    {
        if self.debug_move_speed_reset_requested || self.debug_jump_speed_reset_requested {
            return TuningSend::Nothing;
        }
        let due = match self.debug_tuning_next_send_at {
            None => true,
            Some(deadline) => now_ms >= deadline,
        };
        if !due {
            TuningSend::Nothing
        } else if speed_pending && (!jump_pending || self.debug_tuning_send_speed_next) {
            TuningSend::Speed
        } else if jump_pending {
            TuningSend::Jump
        } else {
            TuningSend::Nothing
        }
    }

    /// Push the resets, then the chosen continuous value.
    fn push_tuning<C>(
        &self,
        out: &mut Vec<DebugCommand<C, I, M>>,
        now_ms: u64,
        choice: TuningSend,
        speed: TuningSample<V>,
        jump: TuningSample<V>,
    )
        requires
            choice == self.tuning_choice(now_ms, speed.pending, jump.pending),
        ensures
            final(out)@ == old(out)@ + self.tuning_commands::<C>(now_ms, speed, jump),
    {
        let ghost o0 = out@;
        let ghost p1 = seq_when(self.debug_move_speed_reset_requested, DebugCommand::<C, I, M>::SetMoveSpeed(None));
        let ghost p2 = seq_when(self.debug_jump_speed_reset_requested, DebugCommand::<C, I, M>::SetJumpSpeed(None));
        let ghost p3 = seq_when(choice == TuningSend::Speed, DebugCommand::<C, I, M>::SetMoveSpeed(Some(speed.centi)));
        let ghost p4 = seq_when(choice == TuningSend::Jump, DebugCommand::<C, I, M>::SetJumpSpeed(Some(jump.centi)));
        if self.debug_move_speed_reset_requested {
            out.push(DebugCommand::SetMoveSpeed(None));
        }
        proof { lemma_push_when(o0, self.debug_move_speed_reset_requested, DebugCommand::<C, I, M>::SetMoveSpeed(None)); }
        let ghost o = out@;
        if self.debug_jump_speed_reset_requested {
            out.push(DebugCommand::SetJumpSpeed(None));
        }
        proof {
            lemma_push_when(o, self.debug_jump_speed_reset_requested, DebugCommand::<C, I, M>::SetJumpSpeed(None));
            lemma_concat_associative(o0, p1, p2);
        }
        let ghost o = out@;
        let is_speed = match choice {
            TuningSend::Speed => true,
            _ => false,
        };
        if is_speed {
            out.push(DebugCommand::SetMoveSpeed(Some(speed.centi)));
        }
        proof {
            lemma_push_when(o, choice == TuningSend::Speed, DebugCommand::<C, I, M>::SetMoveSpeed(Some(speed.centi)));
            lemma_concat_associative(o0, p1 + p2, p3);
        }
        let ghost o = out@;
        let is_jump = match choice {
            TuningSend::Jump => true,
            _ => false,
        };
        if is_jump {
            out.push(DebugCommand::SetJumpSpeed(Some(jump.centi)));
        }
        proof {
            lemma_push_when(o, choice == TuningSend::Jump, DebugCommand::<C, I, M>::SetJumpSpeed(Some(jump.centi)));
            lemma_concat_associative(o0, p1 + p2 + p3, p4);
            reveal(DebugRequests::tuning_commands);
        }
    }

    /// Record what the tuning step sent: resets go back to their defaults, a
    /// continuous send records its value and passes the turn, and any send
    /// postpones the next continuous send by the interval.
    fn apply_tuning(
        &mut self,
        now_ms: u64,
        choice: TuningSend,
        speed: TuningSample<V>,
        jump: TuningSample<V>,
        speed_default: V,
        jump_default: V,
    )
        requires
            now_ms + DEBUG_TUNING_SEND_INTERVAL_MS <= u64::MAX,
            choice == old(self).tuning_choice(now_ms, speed.pending, jump.pending),
        ensures
            ({
                let d = old(self).drained(now_ms, speed, jump, speed_default, jump_default);
                *final(self) == (DebugRequests {
                    debug_move_speed_reset_requested: false,
                    last_sent_debug_move_speed: d.last_sent_debug_move_speed,
                    debug_jump_speed_reset_requested: false,
                    last_sent_debug_jump_speed: d.last_sent_debug_jump_speed,
                    debug_tuning_next_send_at: d.debug_tuning_next_send_at,
                    debug_tuning_send_speed_next: d.debug_tuning_send_speed_next,
                    ..*old(self)
                })
            }),
    {
        let mut sent = false;
        if self.debug_move_speed_reset_requested {
            self.debug_move_speed_reset_requested = false;
            self.last_sent_debug_move_speed = Some(speed_default);
            sent = true;
        }
        if self.debug_jump_speed_reset_requested {
            self.debug_jump_speed_reset_requested = false;
            self.last_sent_debug_jump_speed = Some(jump_default);
            sent = true;
        }
        match choice {
            TuningSend::Speed => {
                self.last_sent_debug_move_speed = Some(speed.value);
                self.debug_tuning_send_speed_next = false;
                sent = true;
            },
            TuningSend::Jump => {
                self.last_sent_debug_jump_speed = Some(jump.value);
                self.debug_tuning_send_speed_next = true;
                sent = true;
            },
            TuningSend::Nothing => {},
        }
        if sent {
            self.debug_tuning_next_send_at = Some(now_ms + DEBUG_TUNING_SEND_INTERVAL_MS);
        }
    }

    /// Take every one-shot request, in a fixed order, and send at most one
    /// continuous tuning value: a reset is sent at once and counts as the send;
    /// otherwise, once the interval since the last send has passed, the pending
    /// control (on a tie, the one whose turn it is) is sent. Any send postpones
    /// the next continuous send by `DEBUG_TUNING_SEND_INTERVAL_MS`.
    pub fn drain_commands_at<C>(
        &mut self,
        now_ms: u64,
        speed: TuningSample<V>,
        jump: TuningSample<V>,
        speed_default: V,
        jump_default: V,
    ) -> (out: Vec<DebugCommand<C, I, M>>)
        requires
            now_ms + DEBUG_TUNING_SEND_INTERVAL_MS <= u64::MAX,
        ensures
            out@ == old(self).drain_output::<C>(now_ms, speed, jump),
            *final(self) == old(self).drained(now_ms, speed, jump, speed_default, jump_default),
    {
        let mut out: Vec<DebugCommand<C, I, M>> = Vec::new();
        let choice = self.choose_tuning(now_ms, speed.pending, jump.pending);
        self.push_network(&mut out);
        self.push_tuning(&mut out, now_ms, choice, speed, jump);
        self.push_display(&mut out);
        self.push_presentation(&mut out);
        self.push_tools(&mut out);
        self.apply_tuning(now_ms, choice, speed, jump, speed_default, jump_default);
        self.clear_one_shots();
        proof {
            let a = old(self).network_commands::<C>();
            assert(Seq::<DebugCommand<C, I, M>>::empty() + a =~= a);
        }
        out
    }
}

/// A drain takes every one-shot request: afterwards none is pending.
pub proof fn lemma_drain_takes_every_request<V, I, M>(
    r: DebugRequests<V, I, M>,
    now: u64,
    speed: TuningSample<V>,
    jump: TuningSample<V>,
    speed_default: V,
    jump_default: V,
)
    ensures
        r.drained(now, speed, jump, speed_default, jump_default).is_idle(),
{
}

/// Once a drain has sent a tuning value (a reset or a continuous value), no
/// continuous value goes out again until the interval has passed, whatever
/// the controls hold then.
pub proof fn lemma_tuning_is_throttled<V, I, M>(
    r: DebugRequests<V, I, M>,
    now: u64,
    speed: TuningSample<V>,
    jump: TuningSample<V>,
    speed_default: V,
    jump_default: V,
    later: u64,
    speed_pending: bool,
    jump_pending: bool,
)
    requires
        now + DEBUG_TUNING_SEND_INTERVAL_MS <= u64::MAX,
        r.debug_move_speed_reset_requested || r.debug_jump_speed_reset_requested
            || r.tuning_choice(now, speed.pending, jump.pending) != TuningSend::Nothing,
        later < now + DEBUG_TUNING_SEND_INTERVAL_MS,
    ensures
        r.drained(now, speed, jump, speed_default, jump_default).tuning_choice(
            later,
            speed_pending,
            jump_pending,
        ) == TuningSend::Nothing,
{
}

/// A reset request is sent by the very next drain, whatever the cadence, and the
/// default becomes the last value sent.
pub proof fn lemma_reset_bypasses_cadence<V, I, M, C>(
    r: DebugRequests<V, I, M>,
    now: u64,
    speed: TuningSample<V>,
    jump: TuningSample<V>,
    speed_default: V,
    jump_default: V,
)
    requires
        r.debug_move_speed_reset_requested,
    ensures
        r.drain_output::<C>(now, speed, jump).contains(DebugCommand::SetMoveSpeed(None)),
        r.drained(now, speed, jump, speed_default, jump_default).last_sent_debug_move_speed
            == Some(speed_default),
{
    reveal(seq_when);
    reveal(DebugRequests::tuning_commands);
    let n = r.network_commands::<C>();
    let t = r.tuning_commands::<C>(now, speed, jump);
    let rest = r.display_commands::<C>() + r.presentation_commands::<C>() + r.tool_commands::<C>();
    let k = n.len() as int;
    assert(t[0] == DebugCommand::<C, I, M>::SetMoveSpeed(None));
    assert(r.drain_output::<C>(now, speed, jump) =~= n + t + r.display_commands::<C>()
        + r.presentation_commands::<C>() + r.tool_commands::<C>());
    assert(r.drain_output::<C>(now, speed, jump)[k] == DebugCommand::<C, I, M>::SetMoveSpeed(None));
}

/// While both controls stay pending and the interval has passed, consecutive drains
/// send them in turn.
pub proof fn lemma_pending_controls_alternate<V, I, M>(
    r: DebugRequests<V, I, M>,
    now: u64,
    speed: TuningSample<V>,
    jump: TuningSample<V>,
    speed_default: V,
    jump_default: V,
    later: u64,
)
    requires
        now + DEBUG_TUNING_SEND_INTERVAL_MS <= later,
        speed.pending,
        jump.pending,
        r.tuning_choice(now, true, true) != TuningSend::Nothing,
    ensures
        r.drained(now, speed, jump, speed_default, jump_default).tuning_choice(later, true, true)
            == (if r.tuning_choice(now, true, true) == TuningSend::Speed {
            TuningSend::Jump
        } else {
            TuningSend::Speed
        }),
{
}

} // verus!
