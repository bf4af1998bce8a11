//! Debug overlay headline for interaction / target / portal.

use vstd::prelude::*;

use crate::interact::{kind_name, state_kind, InteractKind, UIRuntimeState};
use crate::ids::id_label;
use crate::text::{
    append_decimal, append_str, decimal, join, join_strings, join_strs, owned, push_char,
    replace_arrow, replace_arrow_ascii, str_views, string_views,
};

verus! {

#[derive(Clone, Debug)]
pub struct InteractStatusView {
    pub kind: InteractKind,
    pub session_id: Option<u32>,
    pub target: Option<String>,
    pub reject_reason: Option<String>,
    pub close_reason: Option<String>,
    pub last_transition: Option<String>,
    pub trail: String,
}

impl Default for InteractStatusView {
    fn default() -> (v: Self)
        ensures
            v.kind == InteractKind::Idle,
            v.session_id is None,
            v.target is None,
            v.reject_reason is None,
            v.close_reason is None,
            v.last_transition is None,
            v.trail@ == Seq::<char>::empty(),
    {
        InteractStatusView {
            kind: InteractKind::Idle,
            session_id: None,
            target: None,
            reject_reason: None,
            close_reason: None,
            last_transition: None,
            trail: String::new(),
        }
    }
}

pub open spec fn opt_view(o: Option<String>) -> Option<Seq<char>> {
    match o {
        Some(s) => Some(s@),
        None => None,
    }
}

/// `" · "`, the separator of headline parts.
pub open spec fn dot_sep() -> Seq<char> {
    seq![' ', '·', ' ']
}

pub open spec fn session_part(session: u32) -> Seq<char> {
    "Session #"@ + decimal(session as nat)
}

/// Parts of the current-state headline, in order.
pub open spec fn headline_parts(
    kind: InteractKind,
    session_id: Option<u32>,
    target: Option<Seq<char>>,
    reject_reason: Option<Seq<char>>,
    glyph: Seq<char>,
) -> Seq<Seq<char>> {
    let p0 = seq![glyph + seq![' '] + kind_name(kind)];
    let p1 = if kind == InteractKind::Rejected && reject_reason is Some {
        p0.push(reject_reason->0)
    } else {
        p0
    };
    let p2 = if session_id is Some && (kind == InteractKind::Open || kind == InteractKind::Closing
        || kind == InteractKind::Closed) {
        p1.push(session_part(session_id->0))
    } else {
        p1
    };
    if target is Some && (kind == InteractKind::Opening || kind == InteractKind::Open || kind
        == InteractKind::Closing) {
        p2.push("Interactable "@ + target->0)
    } else {
        p2
    }
}

impl InteractStatusView {
    /// Copy of the runtime state: session, target and reasons as text.
    pub fn from_runtime(state: &UIRuntimeState, last_transition: Option<String>, trail: &str) -> (v:
        Self)
        ensures
            v.kind == state_kind(*state),
            v.trail@ == trail@,
            v.last_transition == last_transition,
            v.session_id == (match *state {
                UIRuntimeState::Active { session_id, .. } => Some(session_id),
                UIRuntimeState::Closing { session_id, .. } => Some(session_id),
                UIRuntimeState::Closed { session_id, .. } => Some(session_id),
                _ => None::<u32>,
            }),
            opt_view(v.target) == (match *state {
                UIRuntimeState::Opening { target } => Some(id_label(target.index, target.generation)),
                UIRuntimeState::Active { target, .. } => Some(id_label(target.index, target.generation)),
                UIRuntimeState::Closing { target, .. } => Some(id_label(target.index, target.generation)),
                UIRuntimeState::Rejected { target, .. } => Some(id_label(target.index, target.generation)),
                _ => None::<Seq<char>>,
            }),
            opt_view(v.reject_reason) == (match *state {
                UIRuntimeState::Rejected { reason, .. } => Some(reason@),
                _ => None::<Seq<char>>,
            }),
            opt_view(v.close_reason) == (match *state {
                UIRuntimeState::Closed { reason, .. } => Some(reason@),
                _ => None::<Seq<char>>,
            }),
    {
        let (session_id, target, reject_reason, close_reason) = match state {
            UIRuntimeState::Idle => (None, None, None, None),
            UIRuntimeState::Opening { target } => (None, Some(target.label()), None, None),
            UIRuntimeState::Active { session_id, target } => (
                Some(*session_id),
                Some(target.label()),
                None,
                None,
            ),
            UIRuntimeState::Closing { session_id, target } => (
                Some(*session_id),
                Some(target.label()),
                None,
                None,
            ),
            UIRuntimeState::Rejected { target, reason } => (
                None,
                Some(target.label()),
                Some(reason.clone()),
                None,
            ),
            UIRuntimeState::Closed { session_id, reason } => (
                Some(*session_id),
                None,
                None,
                Some(reason.clone()),
            ),
        };
        InteractStatusView {
            kind: state.kind(),
            session_id,
            target,
            reject_reason,
            close_reason,
            last_transition,
            trail: owned(trail),
        }
    }

    /// Current-state headline: `glyph NAME`, then the reject reason, session
    /// and target where the kind shows them, joined by `" · "`. History is
    /// not included. `glyph` is the kind's status glyph.
    pub fn interaction_line(&self, glyph: &str) -> (line: String)
        ensures
            line@ == join(
                headline_parts(
                    self.kind,
                    self.session_id,
                    opt_view(self.target),
                    opt_view(self.reject_reason),
                    glyph@,
                ),
                dot_sep(),
            ),
    {
        let ghost kind = self.kind;
        let mut head = owned(glyph);
        push_char(&mut head, ' ');
        append_str(&mut head, self.kind.name());
        assert(head@ =~= glyph@ + seq![' '] + kind_name(kind));
        let mut parts: Vec<String> = Vec::new();
        parts.push(head);
        let ghost p0 = seq![glyph@ + seq![' '] + kind_name(kind)];
        assert(string_views(parts@) =~= p0);
        if self.kind == InteractKind::Rejected {
            match &self.reject_reason {
                Some(reason) => {
                    parts.push(reason.clone());
                },
                None => {},
            }
        }
        let ghost p1 = if kind == InteractKind::Rejected && self.reject_reason is Some {
            p0.push(self.reject_reason->0@)
        } else {
            p0
        };
        assert(string_views(parts@) =~= p1);
        match self.session_id {
            Some(session) => {
                if self.kind == InteractKind::Open || self.kind == InteractKind::Closing
                    || self.kind == InteractKind::Closed {
                    let mut part = owned("Session #");
                    append_decimal(&mut part, session as u64);
                    parts.push(part);
                }
            },
            None => {},
        }
        let ghost p2 = if self.session_id is Some && (kind == InteractKind::Open || kind
            == InteractKind::Closing || kind == InteractKind::Closed) {
            p1.push(session_part(self.session_id->0))
        } else {
            p1
        };
        assert(string_views(parts@) =~= p2);
        match &self.target {
            Some(target) => {
                if self.kind == InteractKind::Opening || self.kind == InteractKind::Open
                    || self.kind == InteractKind::Closing {
                    let mut part = owned("Interactable ");
                    append_str(&mut part, target.as_str());
                    parts.push(part);
                }
            },
            None => {},
        }
        assert(string_views(parts@) =~= headline_parts(
            self.kind,
            self.session_id,
            opt_view(self.target),
            opt_view(self.reject_reason),
            glyph@,
        ));
        let mut sep = String::new();
        push_char(&mut sep, ' ');
        push_char(&mut sep, '·');
        push_char(&mut sep, ' ');
        assert(sep@ =~= dot_sep());
        join_strings(&parts, sep.as_str())
    }

    /// History trail, with the session appended when there is one; `"—"`
    /// when the trail is empty.
    pub fn details_trail(&self) -> (s: String)
        ensures
            s@ == (if self.trail@.len() == 0 {
                seq!['—']
            } else if self.session_id is Some {
                self.trail@ + dot_sep() + session_part(self.session_id->0)
            } else {
                self.trail@
            }),
    {
        if self.trail.as_str().is_empty() {
            let mut s = String::new();
            push_char(&mut s, '—');
            assert(s@ =~= seq!['—']);
            s
        } else {
            match self.session_id {
                Some(session) => {
                    let mut s = self.trail.clone();
                    push_char(&mut s, ' ');
                    push_char(&mut s, '·');
                    push_char(&mut s, ' ');
                    append_str(&mut s, "Session #");
                    append_decimal(&mut s, session as u64);
                    assert(s@ =~= self.trail@ + dot_sep() + session_part(session));
                    s
                },
                None => self.trail.clone(),
            }
        }
    }
}

/// `"NONE"`, `"{id} · ELIGIBLE"` or `"{id} · OUTSIDE ZONE"`.
pub fn format_portal_line(id: Option<&str>, eligible: bool) -> (s: String)
    ensures
        s@ == (match id {
            None => "NONE"@,
            Some(i) => if eligible {
                i@ + dot_sep() + "ELIGIBLE"@
            } else {
                i@ + dot_sep() + "OUTSIDE ZONE"@
            },
        }),
{
    match id {
        None => owned("NONE"),
        Some(i) => {
            let mut s = owned(i);
            push_char(&mut s, ' ');
            push_char(&mut s, '·');
            push_char(&mut s, ' ');
            if eligible {
                append_str(&mut s, "ELIGIBLE");
            } else {
                append_str(&mut s, "OUTSIDE ZONE");
            }
            proof {
                if eligible {
                    assert(s@ =~= i@ + dot_sep() + "ELIGIBLE"@);
                } else {
                    assert(s@ =~= i@ + dot_sep() + "OUTSIDE ZONE"@);
                }
            }
            s
        },
    }
}

/// Compact chrome Interact value: the flash stays on the same line, with its
/// arrows in ASCII.
pub fn compact_interact_value(interaction_line: &str, flash: Option<&str>) -> (s: String)
    ensures
        s@ == (match flash {
            Some(f) => if f@.len() != 0 {
                interaction_line@ + dot_sep() + replace_arrow(f@)
            } else {
                interaction_line@
            },
            None => interaction_line@,
        }),
{
    match flash {
        Some(f) => {
            if !f.is_empty() {
                let mut s = owned(interaction_line);
                push_char(&mut s, ' ');
                push_char(&mut s, '·');
                push_char(&mut s, ' ');
                let r = replace_arrow_ascii(f);
                append_str(&mut s, r.as_str());
                assert(s@ =~= interaction_line@ + dot_sep() + replace_arrow(f@));
                s
            } else {
                owned(interaction_line)
            }
        },
        None => owned(interaction_line),
    }
}

pub open spec fn kind_color(kind: InteractKind) -> (u8, u8, u8) {
    match kind {
        InteractKind::Idle => (170, 175, 185),
        InteractKind::Opening => (255, 210, 70),
        InteractKind::Open => (90, 220, 120),
        InteractKind::Closing => (255, 170, 80),
        InteractKind::Closed => (140, 200, 160),
        InteractKind::Rejected => (255, 90, 90),
    }
}

pub fn interact_kind_color(kind: InteractKind) -> (c: (u8, u8, u8))
    ensures
        c == kind_color(kind),
{
    match kind {
        InteractKind::Idle => (170, 175, 185),
        InteractKind::Opening => (255, 210, 70),
        InteractKind::Open => (90, 220, 120),
        InteractKind::Closing => (255, 170, 80),
        InteractKind::Closed => (140, 200, 160),
        InteractKind::Rejected => (255, 90, 90),
    }
}

/// Maximum number of kinds kept in the trail.
pub const TRAIL_MAX: usize = 8;

/// `" → "`.
pub open spec fn arrow_sep() -> Seq<char> {
    seq![' ', '→', ' ']
}

/// Trail after a kind change to `next`: appended, oldest dropped past the cap.
pub open spec fn trail_after(trail: Seq<Seq<char>>, next: InteractKind) -> Seq<Seq<char>> {
    let pushed = trail.push(kind_name(next));
    if pushed.len() > TRAIL_MAX {
        pushed.drop_first()
    } else {
        pushed
    }
}

/// Effective previous kind (absent counts as Idle).
pub open spec fn prev_kind(previous: Option<InteractKind>) -> InteractKind {
    match previous {
        Some(k) => k,
        None => InteractKind::Idle,
    }
}

/// Record a kind change: the trail gains `next` and the transition text
/// `"PREV → NEXT"` is returned. No change (including absent → Idle) returns
/// `None` and leaves the trail alone.
pub fn note_kind_change(
    previous: Option<InteractKind>,
    next: InteractKind,
    trail: &mut Vec<&'static str>,
) -> (r: Option<String>)
    ensures
        prev_kind(previous) == next ==> r is None && final(trail)@ == old(trail)@,
        prev_kind(previous) != next ==> r is Some && r->0@ == kind_name(prev_kind(previous))
            + arrow_sep() + kind_name(next) && str_views(final(trail)@) == trail_after(
            str_views(old(trail)@),
            next,
        ),
{
    match previous {
        Some(p) => {
            if p == next {
                return None;
            }
        },
        None => {},
    }
    let prev = match previous {
        Some(p) => p,
        None => InteractKind::Idle,
    };
    if prev == next {
        return None;
    }
    trail.push(next.name());
    if trail.len() > TRAIL_MAX {
        trail.remove(0);
    }
    assert(str_views(trail@) =~= trail_after(str_views(old(trail)@), next));
    let mut s = owned(prev.name());
    push_char(&mut s, ' ');
    push_char(&mut s, '→');
    push_char(&mut s, ' ');
    append_str(&mut s, next.name());
    assert(s@ =~= kind_name(prev) + arrow_sep() + kind_name(next));
    Some(s)
}

/// The trail joined by `" → "`.
pub fn trail_display(trail: &[&'static str]) -> (s: String)
    ensures
        s@ == join(str_views(trail@), arrow_sep()),
{
    let mut sep = String::new();
    push_char(&mut sep, ' ');
    push_char(&mut sep, '→');
    push_char(&mut sep, ' ');
    assert(sep@ =~= arrow_sep());
    join_strs(trail, sep.as_str())
}

/// The trail never grows past its cap.
pub proof fn lemma_trail_bounded(trail: Seq<Seq<char>>, next: InteractKind)
    requires
        trail.len() <= TRAIL_MAX,
    ensures
        trail_after(trail, next).len() <= TRAIL_MAX,
        trail_after(trail, next).last() == kind_name(next),
{
}

} // verus!
