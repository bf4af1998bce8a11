//! Client-local dialogue state.
//!
//! Not the text renderer and not the authoritative dialogue engine. Server
//! line identity is checked against the active interaction; authored content
//! (which beats, lines and choices exist, and their text) is looked up by
//! the caller and handed in.

use vstd::prelude::*;

use crate::ids::WireEntityId;
use crate::interact::UIRuntimeState;

verus! {

/// Server line of an NPC dialogue session.
#[derive(Clone, Copy, Debug, PartialEq, Eq, Structural)]
pub struct ServerDialogueLine {
    pub session_id: u32,
    pub target: WireEntityId,
    pub npc_content_id: u64,
    pub beat_index: u32,
    pub line_index: u32,
}

/// Server acceptance of the player's choice on a beat.
#[derive(Clone, Copy, Debug, PartialEq, Eq, Structural)]
pub struct ServerDialogueChoiceAccepted {
    pub session_id: u32,
    pub beat_index: u32,
    pub choice_index: u32,
}

/// Client request to choose a dialogue option.
#[derive(Clone, Copy, Debug, PartialEq, Eq, Structural)]
pub struct DialogueChoose {
    pub session_id: u32,
    pub beat_index: u32,
    pub choice_index: u32,
}

/// Interaction session events as the dialogue reads them.
#[derive(Clone, Copy, Debug, PartialEq, Eq, Structural)]
pub enum DialogueInteractEvent {
    Opened { session_id: u32, target: WireEntityId },
    Updated { session_id: u32, target: WireEntityId },
    Rejected { target: WireEntityId },
    Closed { session_id: u32 },
}

#[derive(Clone, Copy, Debug, PartialEq, Eq, Structural)]
pub enum DialogueProjectionError {
    InteractionMismatch,
    UnknownBeat,
    UnknownLine,
}

/// How long an accepted choice stays on screen before the continuation.
pub const ACCEPTED_CHOICE_VISIBLE_NANOS: u128 = 1_000_000_000;

/// The player's accepted choice, shown before the server's continuation.
pub struct AcceptedChoice {
    pub session_id: u32,
    pub text: String,
    pub elapsed_nanos: u128,
}

pub struct DialogueRuntime {
    active: Option<ServerDialogueLine>,
    pending: Option<ServerDialogueLine>,
    selected_choice: usize,
    accepted: Option<AcceptedChoice>,
    presentation_revision: u64,
}

pub struct DialogueModel {
    pub active: Option<ServerDialogueLine>,
    pub pending: Option<ServerDialogueLine>,
    pub selected_choice: usize,
    /// Session, text and elapsed time of the accepted choice.
    pub accepted: Option<(u32, Seq<char>, u128)>,
    pub presentation_revision: u64,
}

impl View for DialogueRuntime {
    type V = DialogueModel;

    closed spec fn view(&self) -> DialogueModel {
        DialogueModel {
            active: self.active,
            pending: self.pending,
            selected_choice: self.selected_choice,
            accepted: match self.accepted {
                Some(a) => Some((a.session_id, a.text@, a.elapsed_nanos)),
                None => None,
            },
            presentation_revision: self.presentation_revision,
        }
    }
}

pub open spec fn initial_dialogue() -> DialogueModel {
    DialogueModel {
        active: None,
        pending: None,
        selected_choice: 0,
        accepted: None,
        presentation_revision: 0,
    }
}

/// Session of the accepted choice on screen, if any.
pub open spec fn accepted_session(m: DialogueModel) -> Option<u32> {
    match m.accepted {
        Some((session, _, _)) => Some(session),
        None => None,
    }
}

/// Showing `line` bumps the revision whenever a different line becomes
/// visible (including consecutive beats that reuse an animation).
pub open spec fn activate_spec(m: DialogueModel, line: ServerDialogueLine) -> DialogueModel {
    DialogueModel {
        presentation_revision: if m.active != Some(line) {
            (if m.presentation_revision == u64::MAX {
                0
            } else {
                m.presentation_revision + 1
            }) as u64
        } else {
            m.presentation_revision
        },
        active: Some(line),
        ..m
    }
}

/// The line belongs to the active interaction session and target.
pub open spec fn line_matches(interaction: UIRuntimeState, line: ServerDialogueLine) -> bool {
    match interaction {
        UIRuntimeState::Active { session_id, target } => session_id == line.session_id && target
            == line.target,
        _ => false,
    }
}

/// Applying a server line. `beat_lines` is the number of authored lines of
/// the line's beat, or `None` when the beat is unknown.
pub open spec fn apply_line_spec(
    m: DialogueModel,
    line: ServerDialogueLine,
    interaction: UIRuntimeState,
    beat_lines: Option<usize>,
) -> (DialogueModel, Result<(), DialogueProjectionError>) {
    if !line_matches(interaction, line) {
        (m, Err(DialogueProjectionError::InteractionMismatch))
    } else if beat_lines is None {
        (DialogueModel { active: None, ..m }, Err(DialogueProjectionError::UnknownBeat))
    } else if line.line_index >= beat_lines->0 {
        (DialogueModel { active: None, ..m }, Err(DialogueProjectionError::UnknownLine))
    } else if accepted_session(m) == Some(line.session_id) {
        // The accepted choice is still on screen: the continuation waits.
        (DialogueModel { pending: Some(line), ..m }, Ok(()))
    } else {
        (
            DialogueModel { pending: None, selected_choice: 0, ..activate_spec(m, line) },
            Ok(()),
        )
    }
}

/// Choices on offer: none while an accepted choice is on screen or without
/// an active line; otherwise the active beat's `beat_choices`.
pub open spec fn visible_choices_spec(m: DialogueModel, beat_choices: usize) -> usize {
    if m.accepted is Some || m.active is None {
        0
    } else {
        beat_choices
    }
}

impl DialogueRuntime {
    pub fn new() -> (r: Self)
        ensures
            r@ == initial_dialogue(),
    {
        DialogueRuntime {
            active: None,
            pending: None,
            selected_choice: 0,
            accepted: None,
            presentation_revision: 0,
        }
    }

    pub fn active(&self) -> (a: Option<ServerDialogueLine>)
        ensures
            a == self@.active,
    {
        self.active
    }

    pub fn is_active(&self) -> (b: bool)
        ensures
            b == self@.active is Some,
    {
        self.active.is_some()
    }

    pub fn acceptance_pending(&self) -> (b: bool)
        ensures
            b == self@.accepted is Some,
    {
        self.accepted.is_some()
    }

    /// Changes whenever a new semantic line becomes visible.
    pub fn presentation_revision(&self) -> (r: u64)
        ensures
            r == self@.presentation_revision,
    {
        self.presentation_revision
    }

    fn activate_line(&mut self, line: ServerDialogueLine)
        ensures
            final(self)@ == activate_spec(old(self)@, line),
            final(self).accepted == old(self).accepted,
    {
        if self.active != Some(line) {
            self.presentation_revision = self.presentation_revision.wrapping_add(1);
        }
        self.active = Some(line);
    }

    /// Accept a server line for the active interaction. `beat_lines` is the
    /// number of authored lines of its beat (`None`: unknown beat).
    pub fn apply_line(
        &mut self,
        line: ServerDialogueLine,
        interaction: &UIRuntimeState,
        beat_lines: Option<usize>,
    ) -> (r: Result<(), DialogueProjectionError>)
        ensures
            (final(self)@, r) == apply_line_spec(old(self)@, line, *interaction, beat_lines),
    {
        let matches = match interaction {
            UIRuntimeState::Active { session_id, target } => *session_id == line.session_id
                && *target == line.target,
            _ => false,
        };
        if !matches {
            return Err(DialogueProjectionError::InteractionMismatch);
        }
        let lines = match beat_lines {
            Some(n) => n,
            None => {
                self.active = None;
                return Err(DialogueProjectionError::UnknownBeat);
            },
        };
        if line.line_index as usize >= lines {
            self.active = None;
            return Err(DialogueProjectionError::UnknownLine);
        }
        let parked = match &self.accepted {
            Some(a) => a.session_id == line.session_id,
            None => false,
        };
        if parked {
            self.pending = Some(line);
        } else {
            self.activate_line(line);
            self.pending = None;
            self.selected_choice = 0;
        }
        Ok(())
    }

    /// The server accepted a choice on the active beat. `choice_text` is the
    /// authored text of that choice of the active line's beat (`None`: no
    /// such choice).
    pub fn apply_choice_accepted(
        &mut self,
        event: ServerDialogueChoiceAccepted,
        choice_text: Option<&str>,
    ) -> (r: Result<(), DialogueProjectionError>)
        ensures
            match old(self)@.active {
                None => r == Err::<(), DialogueProjectionError>(
                    DialogueProjectionError::InteractionMismatch,
                ) && final(self)@ == old(self)@,
                Some(active) => if active.session_id != event.session_id || active.beat_index
                    != event.beat_index {
                    r == Err::<(), DialogueProjectionError>(
                        DialogueProjectionError::InteractionMismatch,
                    ) && final(self)@ == old(self)@
                } else if choice_text is None {
                    r == Err::<(), DialogueProjectionError>(DialogueProjectionError::UnknownBeat)
                        && final(self)@ == old(self)@
                } else {
                    r is Ok && final(self)@ == (DialogueModel {
                        selected_choice: event.choice_index as usize,
                        accepted: Some((event.session_id, choice_text->0@, 0u128)),
                        ..old(self)@
                    })
                },
            },
    {
        let active = match self.active {
            Some(a) => a,
            None => {
                return Err(DialogueProjectionError::InteractionMismatch);
            },
        };
        if active.session_id != event.session_id || active.beat_index != event.beat_index {
            return Err(DialogueProjectionError::InteractionMismatch);
        }
        let text = match choice_text {
            Some(t) => t,
            None => {
                return Err(DialogueProjectionError::UnknownBeat);
            },
        };
        self.selected_choice = event.choice_index as usize;
        self.accepted = Some(
            AcceptedChoice {
                session_id: event.session_id,
                text: crate::text::owned(text),
                elapsed_nanos: 0,
            },
        );
        Ok(())
    }

    /// Interaction session updates: a different session or target drops the
    /// line; a rejection or close ends the dialogue.
    pub fn apply_interact(&mut self, event: DialogueInteractEvent)
        ensures
            match event {
                DialogueInteractEvent::Opened { session_id, target }
                | DialogueInteractEvent::Updated { session_id, target } => final(self)@ == (
                if old(self)@.active is Some && (old(self)@.active->0.session_id != session_id
                    || old(self)@.active->0.target != target) {
                    DialogueModel { active: None, ..old(self)@ }
                } else {
                    old(self)@
                }),
                _ => final(self)@ == (DialogueModel {
                    active: None,
                    pending: None,
                    selected_choice: 0,
                    ..old(self)@
                }),
            },
    {
        match event {
            DialogueInteractEvent::Opened { session_id, target }
            | DialogueInteractEvent::Updated { session_id, target } => {
                let stale = match self.active {
                    Some(line) => line.session_id != session_id || line.target != target,
                    None => false,
                };
                if stale {
                    self.active = None;
                }
            },
            _ => {
                self.active = None;
                self.pending = None;
                self.selected_choice = 0;
            },
        }
    }

    pub fn clear(&mut self)
        ensures
            final(self)@ == (DialogueModel {
                active: None,
                pending: None,
                selected_choice: 0,
                accepted: None,
                ..old(self)@
            }),
    {
        self.active = None;
        self.pending = None;
        self.selected_choice = 0;
        self.accepted = None;
    }

    /// Drops the local projection when the active line's target no longer
    /// exists (`target_exists` answers for the active target).
    pub fn clear_if_target_missing<F: Fn(WireEntityId) -> bool>(&mut self, target_exists: F)
        requires
            forall|t: WireEntityId| #[trigger] target_exists.requires((t,)),
        ensures
            match old(self)@.active {
                None => final(self)@ == old(self)@,
                Some(line) => (final(self)@ == old(self)@ && target_exists.ensures(
                    (line.target,),
                    true,
                )) || (final(self)@ == (DialogueModel {
                    active: None,
                    pending: None,
                    ..old(self)@
                }) && target_exists.ensures((line.target,), false)),
            },
    {
        match self.active {
            Some(line) => {
                if !target_exists(line.target) {
                    self.active = None;
                    self.pending = None;
                }
            },
            None => {},
        }
    }

    /// Number of choices on offer, given the active beat's authored count.
    pub fn visible_choices(&self, beat_choices: usize) -> (n: usize)
        ensures
            n == visible_choices_spec(self@, beat_choices),
    {
        if self.accepted.is_some() || self.active.is_none() {
            0
        } else {
            beat_choices
        }
    }

    pub fn selected_choice(&self) -> (i: usize)
        ensures
            i == self@.selected_choice,
    {
        self.selected_choice
    }

    /// Selects choice `index` when it is on offer.
    pub fn select_choice(&mut self, index: usize, beat_choices: usize) -> (selected: bool)
        ensures
            selected == (index < visible_choices_spec(old(self)@, beat_choices)),
            selected ==> final(self)@ == (DialogueModel { selected_choice: index, ..old(self)@ }),
            !selected ==> final(self)@ == old(self)@,
    {
        let n = self.visible_choices(beat_choices);
        if n == 0 || index >= n {
            return false;
        }
        self.selected_choice = index;
        true
    }

    /// Moves the selection one step, wrapping around the choices on offer.
    pub fn select_next(&mut self, beat_choices: usize, direction: i32) -> (moved: bool)
        requires
            old(self)@.selected_choice + beat_choices <= usize::MAX,
        ensures
            moved == (visible_choices_spec(old(self)@, beat_choices) > 0),
            moved ==> final(self)@ == (DialogueModel {
                selected_choice: (if direction < 0 {
                    (old(self)@.selected_choice + beat_choices - 1) % (beat_choices as int)
                } else {
                    (old(self)@.selected_choice + 1) % (beat_choices as int)
                }) as usize,
                ..old(self)@
            }),
            !moved ==> final(self)@ == old(self)@,
    {
        let n = self.visible_choices(beat_choices);
        if n == 0 {
            return false;
        }
        self.selected_choice = if direction < 0 {
            (self.selected_choice + n - 1) % n
        } else {
            (self.selected_choice + 1) % n
        };
        true
    }

    /// The choose request for the current selection, when it is on offer.
    pub fn choice_request(&self, beat_choices: usize) -> (r: Option<DialogueChoose>)
        ensures
            r == (if self@.active is Some && self@.selected_choice < visible_choices_spec(
                self@,
                beat_choices,
            ) && self@.selected_choice <= u32::MAX {
                Some(
                    DialogueChoose {
                        session_id: self@.active->0.session_id,
                        beat_index: self@.active->0.beat_index,
                        choice_index: self@.selected_choice as u32,
                    },
                )
            } else {
                None
            }),
    {
        let active = match self.active {
            Some(a) => a,
            None => {
                return None;
            },
        };
        let n = self.visible_choices(beat_choices);
        if n == 0 {
            return None;
        }
        if self.selected_choice > 0xFFFF_FFFF {
            return None;
        }
        if self.selected_choice >= n {
            return None;
        }
        Some(
            DialogueChoose {
                session_id: active.session_id,
                beat_index: active.beat_index,
                choice_index: self.selected_choice as u32,
            },
        )
    }

    /// The accepted choice's text while it is on screen.
    pub fn player_text(&self) -> (t: Option<&str>)
        ensures
            match self@.accepted {
                Some(a) => t is Some && t->0@ == a.1,
                None => t is None,
            },
    {
        match &self.accepted {
            Some(a) => Some(a.text.as_str()),
            None => None,
        }
    }

    /// Frame time passes. After the accepted choice has been visible long
    /// enough it is dropped and a parked continuation becomes active.
    pub fn tick(&mut self, elapsed_nanos: u128)
        ensures
            match old(self)@.accepted {
                None => final(self)@ == old(self)@,
                Some((session, text, e)) => {
                    let total = if e + elapsed_nanos > u128::MAX {
                        u128::MAX
                    } else {
                        (e + elapsed_nanos) as u128
                    };
                    if total < ACCEPTED_CHOICE_VISIBLE_NANOS {
                        final(self)@ == (DialogueModel {
                            accepted: Some((session, text, total)),
                            ..old(self)@
                        })
                    } else {
                        final(self)@ == (match old(self)@.pending {
                            Some(next) => DialogueModel {
                                pending: None,
                                selected_choice: 0,
                                ..activate_spec(
                                    (DialogueModel { accepted: None, ..old(self)@ }),
                                    next,
                                )
                            },
                            None => DialogueModel { accepted: None, ..old(self)@ },
                        })
                    }
                },
            },
    {
        let total = match &self.accepted {
            Some(a) => a.elapsed_nanos.saturating_add(elapsed_nanos),
            None => {
                return ;
            },
        };
        if total < ACCEPTED_CHOICE_VISIBLE_NANOS {
            match &mut self.accepted {
                Some(a) => {
                    a.elapsed_nanos = total;
                },
                None => {},
            }
            return ;
        }
        self.accepted = None;
        match self.pending {
            Some(next) => {
                self.pending = None;
                self.activate_line(next);
                self.selected_choice = 0;
            },
            None => {},
        }
    }
}

/// While an accepted choice of the same session is on screen, a valid
/// continuation line waits: the visible line and revision do not change.
pub proof fn lemma_acceptance_defers_continuation(
    m: DialogueModel,
    line: ServerDialogueLine,
    interaction: UIRuntimeState,
    beat_lines: usize,
)
    requires
        line_matches(interaction, line),
        line.line_index < beat_lines,
        accepted_session(m) == Some(line.session_id),
    ensures
        apply_line_spec(m, line, interaction, Some(beat_lines)).0.active == m.active,
        apply_line_spec(m, line, interaction, Some(beat_lines)).0.presentation_revision
            == m.presentation_revision,
        apply_line_spec(m, line, interaction, Some(beat_lines)).0.pending == Some(line),
{
}

/// A line from another session or target never touches the state.
pub proof fn lemma_mismatched_line_is_inert(
    m: DialogueModel,
    line: ServerDialogueLine,
    interaction: UIRuntimeState,
    beat_lines: Option<usize>,
)
    requires
        !line_matches(interaction, line),
    ensures
        apply_line_spec(m, line, interaction, beat_lines) == (
            m,
            Err::<(), DialogueProjectionError>(DialogueProjectionError::InteractionMismatch),
        ),
{
}

/// Re-applying the visible line keeps the revision; a different line
/// changes it.
pub proof fn lemma_revision_tracks_visible_line(m: DialogueModel, line: ServerDialogueLine)
    ensures
        (activate_spec(m, line).presentation_revision == m.presentation_revision) == (m.active
            == Some(line)),
        activate_spec(m, line).active == Some(line),
{
}

/// A line that is shown starts a fresh beat: when it belongs to the active
/// interaction, is a known line of a known beat, and no accepted choice of
/// its session is still on screen, it becomes the active line, the choice
/// highlight returns to the first choice, nothing stays pending, and the
/// accepted choice (of another session, if any) is left as it was.
pub proof fn lemma_shown_line_resets_selection(
    m: DialogueModel,
    line: ServerDialogueLine,
    interaction: UIRuntimeState,
    beat_lines: usize,
)
    requires
        match interaction {
            UIRuntimeState::Active { session_id, target } => session_id == line.session_id
                && target == line.target,
            _ => false,
        },
        line.line_index < beat_lines,
        match m.accepted {
            Some((session, _, _)) => session != line.session_id,
            None => true,
        },
    ensures
        ({
            let (n, r) = apply_line_spec(m, line, interaction, Some(beat_lines));
            &&& r is Ok
            &&& n.active == Some(line)
            &&& n.selected_choice == 0
            &&& n.pending is None
            &&& n.accepted == m.accepted
        }),
{
}

} // verus!
