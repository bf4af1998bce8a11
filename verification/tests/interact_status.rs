use purgatory_client::debug::interact_status::{
    compact_interact_value, format_portal_line, interact_kind_color, note_kind_change,
    trail_display, InteractStatusView, TRAIL_MAX,
};
use purgatory_client::ids::WireEntityId;
use purgatory_client::interact::{InteractKind, UIRuntimeState};

/// Status glyph handed to the headline; the headline does not depend on which.
const GLYPH: &str = "●";

fn eid(index: u32) -> WireEntityId {
    WireEntityId {
        index,
        generation: 1,
    }
}

#[test]
fn headline_is_current_state_not_history() {
    let view = InteractStatusView::from_runtime(
        &UIRuntimeState::Active {
            session_id: 3,
            target: eid(27),
        },
        Some("OPENING → OPEN".into()),
        "IDLE → OPENING → OPEN",
    );
    let line = view.interaction_line(GLYPH);
    assert!(line.contains("OPEN"), "{line}");
    assert!(line.contains("Session #3"), "{line}");
    assert!(line.contains("27:1"), "{line}");
    assert!(!line.contains("OPENING →"), "{line}");
    assert!(!line.contains("Requested"), "{line}");
    assert!(!line.contains("Closed"), "{line}");
    assert_eq!(view.details_trail(), "IDLE → OPENING → OPEN · Session #3");
}

#[test]
fn rejected_shows_reason_on_current_line() {
    let view = InteractStatusView::from_runtime(
        &UIRuntimeState::Rejected {
            target: eid(27),
            reason: "OutOfRange".to_string(),
        },
        Some("OPENING → REJECTED".into()),
        "OPENING → REJECTED",
    );
    let line = view.interaction_line(GLYPH);
    assert!(line.contains("REJECTED"), "{line}");
    assert!(line.contains("OutOfRange"), "{line}");
    assert!(!line.contains("OPENING → REJECTED"), "{line}");
}

#[test]
fn closed_does_not_look_like_open() {
    let view = InteractStatusView::from_runtime(
        &UIRuntimeState::Closed {
            session_id: 3,
            reason: "Requested".to_string(),
        },
        Some("CLOSING → CLOSED".into()),
        "OPEN → CLOSING → CLOSED",
    );
    let line = view.interaction_line(GLYPH);
    assert!(line.contains("CLOSED"), "{line}");
    assert!(line.contains("Session #3"), "{line}");
    assert!(!line.contains("Requested"), "{line}");
    assert!(!line.contains("OPEN ·"), "{line}");
}

#[test]
fn portal_is_not_an_e_session() {
    assert_eq!(format_portal_line(None, false), "NONE");
    assert_eq!(format_portal_line(Some("28:1"), true), "28:1 · ELIGIBLE");
    assert_eq!(
        format_portal_line(Some("28:1"), false),
        "28:1 · OUTSIDE ZONE"
    );
}

#[test]
fn compact_interact_value_stays_one_slot_when_flashing() {
    let idle = InteractStatusView::default().interaction_line(GLYPH);
    assert_eq!(compact_interact_value(&idle, None), idle);
    assert_eq!(compact_interact_value(&idle, Some("")), idle);
    assert_eq!(
        compact_interact_value(&idle, Some("OPENING → OPEN")),
        format!("{idle} · OPENING -> OPEN")
    );
}

#[test]
fn kind_change_records_transition_not_simultaneous_states() {
    let mut trail = Vec::new();
    assert_eq!(
        note_kind_change(None, InteractKind::Opening, &mut trail).as_deref(),
        Some("IDLE → OPENING")
    );
    assert_eq!(
        note_kind_change(Some(InteractKind::Opening), InteractKind::Open, &mut trail).as_deref(),
        Some("OPENING → OPEN")
    );
    assert_eq!(
        note_kind_change(Some(InteractKind::Open), InteractKind::Closing, &mut trail).as_deref(),
        Some("OPEN → CLOSING")
    );
    assert_eq!(
        note_kind_change(
            Some(InteractKind::Closing),
            InteractKind::Closed,
            &mut trail
        )
        .as_deref(),
        Some("CLOSING → CLOSED")
    );
    assert_eq!(trail_display(&trail), "OPENING → OPEN → CLOSING → CLOSED");
}

#[test]
fn headline_layout_is_exact() {
    let view = InteractStatusView::from_runtime(
        &UIRuntimeState::Opening { target: eid(9) },
        None,
        "",
    );
    assert_eq!(view.interaction_line(GLYPH), "● OPENING · Interactable 9:1");
    assert_eq!(view.details_trail(), "—");
    let idle = InteractStatusView::default();
    assert_eq!(idle.interaction_line(GLYPH), "● IDLE");
    let rejected = InteractStatusView::from_runtime(
        &UIRuntimeState::Rejected {
            target: eid(27),
            reason: "OutOfRange".to_string(),
        },
        None,
        "OPENING → REJECTED",
    );
    assert_eq!(rejected.interaction_line(GLYPH), "● REJECTED · OutOfRange");
    assert_eq!(rejected.details_trail(), "OPENING → REJECTED");
}

#[test]
fn unchanged_kind_is_not_a_transition_and_trail_is_capped() {
    let mut trail = Vec::new();
    assert_eq!(note_kind_change(None, InteractKind::Idle, &mut trail), None);
    assert_eq!(
        note_kind_change(Some(InteractKind::Open), InteractKind::Open, &mut trail),
        None
    );
    assert!(trail.is_empty());
    let kinds = [InteractKind::Opening, InteractKind::Open];
    let mut prev = None;
    for i in 0..(TRAIL_MAX + 3) {
        let next = kinds[i % 2];
        assert!(note_kind_change(prev, next, &mut trail).is_some());
        prev = Some(next);
        assert!(trail.len() <= TRAIL_MAX);
    }
    assert_eq!(trail.len(), TRAIL_MAX);
    assert_eq!(*trail.last().unwrap(), "OPENING");
}

#[test]
fn kind_colors_are_distinct_per_kind() {
    assert_eq!(interact_kind_color(InteractKind::Rejected), (255, 90, 90));
    assert_eq!(interact_kind_color(InteractKind::Open), (90, 220, 120));
    assert_ne!(
        interact_kind_color(InteractKind::Idle),
        interact_kind_color(InteractKind::Closed)
    );
}
