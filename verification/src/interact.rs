//! Client interaction session state as the debug views read it.

use vstd::prelude::*;

use crate::ids::WireEntityId;

verus! {

/// Coarse kind of the interaction session.
#[derive(Clone, Copy, Debug, PartialEq, Eq, Structural)]
pub enum InteractKind {
    Idle,
    Opening,
    Open,
    Closing,
    Closed,
    Rejected,
}

pub open spec fn kind_name(k: InteractKind) -> Seq<char> {
    match k {
        InteractKind::Idle => "IDLE"@,
        InteractKind::Opening => "OPENING"@,
        InteractKind::Open => "OPEN"@,
        InteractKind::Closing => "CLOSING"@,
        InteractKind::Closed => "CLOSED"@,
        InteractKind::Rejected => "REJECTED"@,
    }
}

impl InteractKind {
    /// Upper-case display name.
    pub fn name(self) -> (s: &'static str)
        ensures
            s@ == kind_name(self),
    {
        match self {
            InteractKind::Idle => "IDLE",
            InteractKind::Opening => "OPENING",
            InteractKind::Open => "OPEN",
            InteractKind::Closing => "CLOSING",
            InteractKind::Closed => "CLOSED",
            InteractKind::Rejected => "REJECTED",
        }
    }
}

/// Interaction session as seen by the client. Reasons are carried as their
/// display text.
#[derive(Clone, Debug)]
pub enum UIRuntimeState {
    Idle,
    Opening { target: WireEntityId },
    Active { session_id: u32, target: WireEntityId },
    Closing { session_id: u32, target: WireEntityId },
    Rejected { target: WireEntityId, reason: String },
    Closed { session_id: u32, reason: String },
}

pub open spec fn state_kind(s: UIRuntimeState) -> InteractKind {
    match s {
        UIRuntimeState::Idle => InteractKind::Idle,
        UIRuntimeState::Opening { .. } => InteractKind::Opening,
        UIRuntimeState::Active { .. } => InteractKind::Open,
        UIRuntimeState::Closing { .. } => InteractKind::Closing,
        UIRuntimeState::Rejected { .. } => InteractKind::Rejected,
        UIRuntimeState::Closed { .. } => InteractKind::Closed,
    }
}

impl UIRuntimeState {
    pub fn kind(&self) -> (k: InteractKind)
        ensures
            k == state_kind(*self),
    {
        match self {
            UIRuntimeState::Idle => InteractKind::Idle,
            UIRuntimeState::Opening { .. } => InteractKind::Opening,
            UIRuntimeState::Active { .. } => InteractKind::Open,
            UIRuntimeState::Closing { .. } => InteractKind::Closing,
            UIRuntimeState::Rejected { .. } => InteractKind::Rejected,
            UIRuntimeState::Closed { .. } => InteractKind::Closed,
        }
    }
}

} // verus!
