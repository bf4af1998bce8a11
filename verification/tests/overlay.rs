use purgatory_client::debug::entity_inspector::{InspectorCategory, InspectorView};
use purgatory_client::debug::overlay::{
    fmt_opt_u16, is_debug_toggle_key, network_section_default_open, tab_section_ids, DebugTab,
};
use purgatory_client::debug::sections::DebugSectionMap;
use purgatory_client::debug::ui_state::reset_action_label;
use purgatory_client::input::GameKey;

#[test]
fn backquote_press_toggles_and_repeat_does_not() {
    assert!(is_debug_toggle_key(GameKey::Backquote, true, false));
    assert!(!is_debug_toggle_key(GameKey::Backquote, true, true));
    assert!(!is_debug_toggle_key(GameKey::Backquote, false, false));
    assert!(!is_debug_toggle_key(GameKey::Space, true, false));
}

#[test]
fn every_multi_section_tab_has_expand_collapse_ids() {
    for tab in [
        DebugTab::Debug,
        DebugTab::Player,
        DebugTab::Skeleton,
        DebugTab::World,
        DebugTab::Camera,
        DebugTab::Diagnostics,
        DebugTab::Network,
    ] {
        assert!(
            tab_section_ids(tab).len() >= 2,
            "{tab:?} should expose Expand all / Collapse all"
        );
    }
    assert_eq!(tab_section_ids(DebugTab::Runtime).len(), 1);
    assert_eq!(
        tab_section_ids(DebugTab::Debug),
        &[
            "debug.npc_spawn",
            "debug.pose",
            "debug.camera",
            "debug.replica",
            "debug.view",
            "debug.display",
        ]
    );
    assert_eq!(
        reset_action_label(true),
        "Reanchor Prediction",
        "replica_player_pos (local_entity) → reanchor, not spawn"
    );
    assert_eq!(reset_action_label(false), "Reset to Spawn Point");
    assert!(tab_section_ids(DebugTab::Skeleton).contains(&"skeleton.equipment"));
    assert!(tab_section_ids(DebugTab::Player).contains(&"footnote.contact"));
    assert!(tab_section_ids(DebugTab::Diagnostics).contains(&"diagnostics.help"));
    assert!(!tab_section_ids(DebugTab::World).contains(&"world.view"));
    assert!(!tab_section_ids(DebugTab::Camera).contains(&"camera.follow"));
}

#[test]
fn network_forensic_sections_start_collapsed() {
    for id in [
        "network.connection",
        "network.aoi",
        "network.interact",
        "network.input",
        "network.replica",
        "network.interp",
        "network.prediction",
        "network.impairment",
        "network.failure",
        "network.history",
    ] {
        assert!(
            !network_section_default_open(id),
            "{id} should start collapsed"
        );
    }
}

#[test]
fn world_entities_open_by_default_platforms_collapsed() {
    assert!(InspectorView::category_default_open(
        InspectorCategory::Players
    ));
    assert!(InspectorView::category_default_open(
        InspectorCategory::Interactables
    ));
    assert!(InspectorView::category_default_open(
        InspectorCategory::Portals
    ));
    assert!(!InspectorView::category_default_open(
        InspectorCategory::Platforms
    ));
    assert!(!InspectorView::category_default_open(
        InspectorCategory::Other
    ));
}

#[test]
fn optional_u16_renders_dash_when_absent() {
    assert_eq!(fmt_opt_u16(None), "—");
    assert_eq!(fmt_opt_u16(Some(0)), "0");
    assert_eq!(fmt_opt_u16(Some(65535)), "65535");
}

#[test]
fn network_tab_sections_are_the_forensic_ids() {
    assert_eq!(tab_section_ids(DebugTab::Network).len(), 10);
    assert_eq!(tab_section_ids(DebugTab::Network)[0], "network.connection");
    assert_eq!(tab_section_ids(DebugTab::Network)[9], "network.history");
}

#[test]
fn missing_id_uses_default_until_set() {
    let mut sections = DebugSectionMap::default();
    assert!(sections.is_open("net.prediction", true));
    assert!(!sections.is_open("net.connection", false));
    sections.set("net.prediction", false);
    assert!(!sections.is_open("net.prediction", true));
    sections.set("net.prediction", true);
    assert!(sections.is_open("net.prediction", false));
}

#[test]
fn set_all_overrides_defaults() {
    let mut sections = DebugSectionMap::default();
    let ids = ["net.prediction", "net.impairment", "net.connection"];
    sections.set_all(&ids, false);
    assert!(!sections.is_open("net.prediction", true));
    assert!(!sections.is_open("net.connection", true));
    sections.set_all(&ids, true);
    assert!(sections.is_open("net.connection", false));
}

#[test]
fn set_touches_only_its_own_section() {
    let mut sections = DebugSectionMap::default();
    sections.set("a", false);
    sections.set("b", true);
    sections.set("a", true);
    assert!(sections.is_open("a", false));
    assert!(sections.is_open("b", false));
    assert!(!sections.is_open("c", false));
    assert!(sections.is_open("c", true));
}
