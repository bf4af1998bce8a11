//! Debug overlay section identities and small value formatters.

use vstd::prelude::*;

use crate::input::GameKey;
use crate::text::{decimal, decimal_string, push_char};

verus! {

/// Overlay tabs.
#[derive(Clone, Copy, Debug, PartialEq, Eq, Structural)]
pub enum DebugTab {
    Debug,
    Runtime,
    Player,
    Skeleton,
    World,
    Camera,
    Diagnostics,
    Network,
}

/// Collapsible section ids of each tab, in drawing order.
pub open spec fn tab_sections(tab: DebugTab) -> Seq<Seq<char>> {
    match tab {
        DebugTab::Debug => seq![
            "debug.npc_spawn"@,
            "debug.pose"@,
            "debug.camera"@,
            "debug.replica"@,
            "debug.view"@,
            "debug.display"@,
        ],
        DebugTab::Runtime => seq!["runtime.frame"@],
        DebugTab::Player => seq!["player.pose"@, "player.motion"@, "footnote.contact"@],
        DebugTab::Skeleton => seq![
            "skeleton.view"@,
            "skeleton.inspect"@,
            "skeleton.equipment"@,
            "skeleton.proof"@,
        ],
        DebugTab::World => seq!["world.stage"@, "world.entities"@],
        DebugTab::Camera => seq!["camera.transform"@, "camera.jitter"@, "camera.parallax"@],
        DebugTab::Diagnostics => seq![
            "diagnostics.detectors"@,
            "diagnostics.help"@,
            "diagnostics.last"@,
            "diagnostics.history"@,
        ],
        DebugTab::Network => seq![
            "network.connection"@,
            "network.aoi"@,
            "network.interact"@,
            "network.input"@,
            "network.replica"@,
            "network.interp"@,
            "network.prediction"@,
            "network.impairment"@,
            "network.failure"@,
            "network.history"@,
        ],
    }
}

pub open spec fn views_of(v: Seq<&'static str>) -> Seq<Seq<char>> {
    v.map_values(|s: &'static str| s@)
}

/// Section ids of a tab (used by Expand all / Collapse all).
pub fn tab_section_ids(tab: DebugTab) -> (ids: Vec<&'static str>)
    ensures
        views_of(ids@) == tab_sections(tab),
{
    let ids = match tab {
        DebugTab::Debug => vec![
            "debug.npc_spawn",
            "debug.pose",
            "debug.camera",
            "debug.replica",
            "debug.view",
            "debug.display",
        ],
        DebugTab::Runtime => vec!["runtime.frame"],
        DebugTab::Player => vec!["player.pose", "player.motion", "footnote.contact"],
        DebugTab::Skeleton => vec![
            "skeleton.view",
            "skeleton.inspect",
            "skeleton.equipment",
            "skeleton.proof",
        ],
        DebugTab::World => vec!["world.stage", "world.entities"],
        DebugTab::Camera => vec!["camera.transform", "camera.jitter", "camera.parallax"],
        DebugTab::Diagnostics => vec![
            "diagnostics.detectors",
            "diagnostics.help",
            "diagnostics.last",
            "diagnostics.history",
        ],
        DebugTab::Network => vec![
            "network.connection",
            "network.aoi",
            "network.interact",
            "network.input",
            "network.replica",
            "network.interp",
            "network.prediction",
            "network.impairment",
            "network.failure",
            "network.history",
        ],
    };
    assert(views_of(ids@) =~= tab_sections(tab));
    ids
}

/// Decimal value, or `"—"` when absent.
pub fn fmt_opt_u16(value: Option<u16>) -> (s: String)
    ensures
        s@ == (match value {
            Some(n) => decimal(n as nat),
            None => seq!['—'],
        }),
{
    match value {
        Some(n) => decimal_string(n as u64),
        None => {
            let mut s = String::new();
            push_char(&mut s, '—');
            assert(s@ =~= seq!['—']);
            s
        },
    }
}

/// Network forensic sections start collapsed.
pub fn network_section_default_open(id: &'static str) -> (b: bool)
    ensures
        !b,
{
    false
}

/// The overlay toggles on a fresh Backquote press; repeats and releases do not.
pub fn is_debug_toggle_key(key: GameKey, pressed: bool, repeat: bool) -> (b: bool)
    ensures
        b == (pressed && !repeat && key == GameKey::Backquote),
{
    pressed && !repeat && key == GameKey::Backquote
}

} // verus!
