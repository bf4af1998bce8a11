//! Debug input routing: which events still reach gameplay while the debug
//! overlay is open.

use vstd::prelude::*;

verus! {

pub open spec fn keyboard_forwarded(overlay_visible: bool, text_like_focus: bool, pressed: bool) -> bool {
    !overlay_visible || !(text_like_focus && pressed)
}

/// Whether a keyboard event should also map to gameplay actions.
///
/// Opening the overlay does not steal keys. A focused text-like widget steals
/// presses only; releases still reach gameplay so held movement cannot stick.
pub fn gameplay_receives_keyboard(overlay_visible: bool, text_like_focus: bool, pressed: bool) -> (b:
    bool)
    ensures
        b == keyboard_forwarded(overlay_visible, text_like_focus, pressed),
{
    if !overlay_visible {
        return true;
    }
    !(text_like_focus && pressed)
}

/// Whether a pointer event should map to gameplay mouse actions. Hovering or
/// clicking the overlay never becomes a game click.
pub fn gameplay_receives_pointer(overlay_visible: bool, egui_wants_pointer: bool) -> (b: bool)
    ensures
        b == (!overlay_visible || !egui_wants_pointer),
{
    if !overlay_visible {
        return true;
    }
    !egui_wants_pointer
}

/// Key releases always reach gameplay, whatever the overlay and focus state,
/// so a held control can always be released; with the overlay closed every
/// key reaches gameplay.
pub proof fn lemma_releases_always_reach_gameplay(overlay_visible: bool, text_like_focus: bool)
    ensures
        keyboard_forwarded(overlay_visible, text_like_focus, false),
        keyboard_forwarded(false, text_like_focus, true),
{
}

} // verus!
