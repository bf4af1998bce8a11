use purgatory_client::debug::aoi_view::{band_label, AoiBand, ReplicaRole};
use purgatory_client::debug::entity_inspector::{
    build, known_and_world, sort_key, world_line, DirtyFlags, InspectorAccent, InspectorCategory,
    InspectorSource, InspectorView, ReplicaRowInput, WorldEntityInput,
};
use purgatory_client::ids::{EntityId, EntityKind, InteractableKind, WireEntityId};

fn eid(index: u32) -> EntityId {
    EntityId::from_raw(index, 1)
}

/// `replication` is the class name; `None` for entities that are not replicated.
fn world_ent(
    index: u32,
    kind: EntityKind,
    replication: Option<&str>,
    interactable: Option<InteractableKind>,
) -> WorldEntityInput {
    WorldEntityInput {
        id: eid(index),
        kind,
        placement: "dev/0/0 Active".to_string(),
        content_id: None,
        has_persistent_id: false,
        replication_class: replication.map(|c| c.to_string()),
        has_transform: true,
        has_health: false,
        dirty: DirtyFlags::default(),
        interactable,
    }
}

fn replica(index: u32, role: ReplicaRole) -> ReplicaRowInput {
    ReplicaRowInput {
        entity_id: WireEntityId {
            index,
            generation: 1,
        },
        role,
        band_label: band_label(AoiBand::InEnter),
        recent: None,
    }
}

#[test]
fn platforms_do_not_bury_players_or_replica_kinds() {
    let world = [
        world_ent(1, EntityKind::Platform, None, None),
        world_ent(2, EntityKind::Platform, None, None),
        world_ent(3, EntityKind::Player, Some("VisibleObservers"), None),
    ];
    let replica_rows = vec![
        replica(26, ReplicaRole::LocalPlayer),
        replica(35, ReplicaRole::RemotePlayer),
        replica(27, ReplicaRole::Interactable),
        replica(28, ReplicaRole::Portal),
    ];
    let view = build(&world, Some(eid(3)), &replica_rows);
    assert_eq!(view.platforms.len(), 2);
    let local_rows: Vec<_> = view
        .players
        .iter()
        .filter(|r| r.accent == InspectorAccent::LocalPlayer)
        .collect();
    assert_eq!(local_rows.len(), 1, "local player must be one semantic row");
    assert_eq!(local_rows[0].title, "LOCAL PLAYER");
    assert_eq!(local_rows[0].source, InspectorSource::LocalPlayer);
    assert_eq!(
        local_rows[0].server_runtime_entity_id.as_deref(),
        Some("26:1")
    );
    assert_eq!(local_rows[0].client_world_entity_id.as_deref(), Some("3:1"));
    assert!(view
        .players
        .iter()
        .any(|r| r.title.contains("PLAYER 35:1 · REMOTE") && r.source == InspectorSource::Replica));
    assert_eq!(view.interactables.len(), 1);
    assert!(view.interactables[0].title.starts_with("INTERACTABLE 27:1"));
    assert_eq!(view.portals.len(), 1);
    assert!(view.portals[0].title.starts_with("PORTAL 28:1"));
    assert_eq!(view.known_players(), 2);
    assert_eq!(view.world_platforms(), 2);
    assert_eq!(
        view.category_summary(InspectorCategory::Platforms),
        "2 World / repl=None"
    );
    assert_eq!(
        view.category_summary(InspectorCategory::Players),
        "2 Known · 1 World"
    );
    assert!(view
        .platforms
        .iter()
        .all(|r| r.replication_line.contains("class=None")));
    let remote = view
        .players
        .iter()
        .find(|r| r.title.contains("REMOTE"))
        .unwrap();
    assert!(remote.replication_line.contains("Known"));
    assert!(!remote.replication_line.contains("class=None"));
    assert!(remote.world_line.contains("not a local World slot"));
}

#[test]
fn world_generic_portal_capability_is_not_a_platform() {
    let world = [world_ent(
        9,
        EntityKind::Generic,
        Some("VisibleObservers"),
        Some(InteractableKind::Portal),
    )];
    let view = build(&world, None, &[]);
    assert!(view.platforms.is_empty());
    assert_eq!(view.portals.len(), 1);
    assert!(view.portals[0].title.starts_with("PORTAL 9:1"));
}

#[test]
fn world_chest_is_interactable_not_player() {
    let world = [world_ent(
        7,
        EntityKind::Generic,
        Some("VisibleObservers"),
        Some(InteractableKind::Chest),
    )];
    let view = build(&world, None, &[]);
    assert_eq!(view.interactables.len(), 1);
    assert!(view.players.is_empty());
    assert!(view.interactables[0]
        .world_line
        .contains("interactable=Chest"));
}

#[test]
fn replica_sorts_local_before_remote_inside_players() {
    let replica_rows = vec![
        replica(40, ReplicaRole::RemotePlayer),
        replica(10, ReplicaRole::LocalPlayer),
    ];
    let view = build(&[], None, &replica_rows);
    assert_eq!(view.players[0].title, "LOCAL PLAYER");
    assert_eq!(view.players[0].source, InspectorSource::LocalPlayer);
    assert_eq!(
        view.players[0].server_runtime_entity_id.as_deref(),
        Some("10:1")
    );
    assert!(view.players[0].client_world_entity_id.is_none());
    assert!(view.players[1].title.contains("REMOTE"));
}

#[test]
fn local_player_does_not_split_namespaces_into_peer_rows() {
    let world = [world_ent(1, EntityKind::Player, Some("VisibleObservers"), None)];
    let replica_rows = vec![replica(26, ReplicaRole::LocalPlayer)];
    let view = build(&world, Some(eid(1)), &replica_rows);
    assert_eq!(view.players.len(), 1);
    assert_eq!(view.players[0].title, "LOCAL PLAYER");
    assert_eq!(view.players[0].source, InspectorSource::LocalPlayer);
    assert_eq!(
        view.players[0].server_runtime_entity_id.as_deref(),
        Some("26:1")
    );
    assert_eq!(
        view.players[0].client_world_entity_id.as_deref(),
        Some("1:1")
    );
    assert!(!view.players.iter().any(|r| r.title.contains("PLAYER 26:1")));
    assert!(!view.players.iter().any(|r| r.title.contains("PLAYER 1:1")));
}

#[test]
fn category_defaults_expand_gameplay_and_collapse_platforms() {
    assert!(InspectorView::category_default_open(
        InspectorCategory::Players
    ));
    assert!(InspectorView::category_default_open(
        InspectorCategory::Interactables
    ));
    assert!(InspectorView::category_default_open(
        InspectorCategory::Portals
    ));
    assert!(!InspectorView::category_default_open(
        InspectorCategory::Platforms
    ));
    assert!(!InspectorView::category_default_open(
        InspectorCategory::Other
    ));
}

#[test]
fn world_line_renders_every_field() {
    let mut e = world_ent(5, EntityKind::Generic, None, Some(InteractableKind::Chest));
    e.content_id = Some("20001".to_string());
    e.has_persistent_id = true;
    e.has_health = true;
    e.dirty = DirtyFlags {
        transform: true,
        health: false,
        membership: true,
        replication: false,
    };
    assert_eq!(
        world_line(&e),
        "dev/0/0 Active content=20001 persist=yes caps=th interactable=Chest dirty=t1h0m1r0"
    );
    let plain = world_ent(6, EntityKind::Platform, None, None);
    assert_eq!(
        world_line(&plain),
        "dev/0/0 Active content=- persist=no caps=t- dirty=t0h0m0r0"
    );
}

#[test]
fn summaries_count_known_and_world_rows() {
    assert_eq!(known_and_world(3, 0), "3 Known");
    assert_eq!(known_and_world(0, 2), "2 World");
    assert_eq!(known_and_world(0, 0), "0 Known");
    assert_eq!(known_and_world(4, 1), "4 Known · 1 World");
    let world = [
        world_ent(1, EntityKind::Generic, None, None),
        world_ent(2, EntityKind::Platform, Some("VisibleObservers"), None),
    ];
    let view = build(&world, None, &[replica(8, ReplicaRole::Portal)]);
    assert_eq!(view.other.len(), 1);
    assert_eq!(view.category_summary(InspectorCategory::Other), "1 World");
    assert_eq!(view.category_summary(InspectorCategory::Platforms), "1 World");
    assert_eq!(view.category_summary(InspectorCategory::Portals), "1 Known");
    assert_eq!(
        view.entities_header_summary(),
        "Players 0 Known · Interactables 0 Known · Portals 1 Known · Platforms 1 World"
    );
    assert_eq!(
        InspectorView::category_section_id(InspectorCategory::Portals),
        "world.entities.portals"
    );
    assert_eq!(
        InspectorView::players_local_section_id(),
        "world.entities.players.local"
    );
}

#[test]
fn rows_are_ordered_by_key_with_ties_kept_in_input_order() {
    let replica_rows = vec![
        replica(40, ReplicaRole::RemotePlayer),
        replica(12, ReplicaRole::RemotePlayer),
        replica(30, ReplicaRole::RemotePlayer),
    ];
    let view = build(&[], None, &replica_rows);
    let titles: Vec<&str> = view.players.iter().map(|r| r.title.as_str()).collect();
    assert_eq!(
        titles,
        vec!["PLAYER 12:1 · REMOTE", "PLAYER 30:1 · REMOTE", "PLAYER 40:1 · REMOTE"]
    );
    let keys: Vec<_> = view.players.iter().map(sort_key).collect();
    assert!(keys.windows(2).all(|w| w[0] <= w[1]));
}
