//! Categorized entity inspector. Presentation only.
//!
//! World rows are client `World` slots. Replica rows are observer Known-set
//! only. Namespaces are never merged by matching `index:generation`. The
//! local player is one semantic row that carries both identities.

use vstd::prelude::*;
use vstd::multiset::Multiset;

use crate::debug::aoi_view::ReplicaRole;
use crate::ids::{id_label, EntityId, EntityKind, InteractableKind, WireEntityId};
use crate::text::{append_decimal, append_str, contains_seq, contains_str, decimal, owned, push_char};

verus! {

#[derive(Clone, Copy, Debug, PartialEq, Eq, Structural)]
pub enum InspectorSource {
    World,
    Replica,
    /// One semantic local player; both identity namespaces live on this row.
    LocalPlayer,
}

#[derive(Clone, Copy, Debug, PartialEq, Eq, Structural)]
pub enum InspectorAccent {
    LocalPlayer,
    RemotePlayer,
    Interactable,
    Portal,
    Platform,
    Other,
}

#[derive(Clone, Copy, Debug, PartialEq, Eq, Structural)]
pub enum InspectorCategory {
    Players,
    Interactables,
    Portals,
    Platforms,
    Other,
}

#[derive(Clone, Debug)]
pub struct InspectorRow {
    pub title: String,
    pub source: InspectorSource,
    pub world_line: String,
    pub replication_line: String,
    /// Server observer Known-set id. Not a client `World` slot.
    pub server_runtime_entity_id: Option<String>,
    /// Client-local `World` slot. Not a server runtime id.
    pub client_world_entity_id: Option<String>,
    pub accent: InspectorAccent,
    pub sort_index: u32,
    pub sort_generation: u32,
}

/// Model of an [`InspectorRow`].
pub struct RowModel {
    pub title: Seq<char>,
    pub source: InspectorSource,
    pub world_line: Seq<char>,
    pub replication_line: Seq<char>,
    pub server_id: Option<Seq<char>>,
    pub client_id: Option<Seq<char>>,
    pub accent: InspectorAccent,
    pub sort_index: u32,
    pub sort_generation: u32,
}

pub open spec fn opt_str(o: Option<String>) -> Option<Seq<char>> {
    match o {
        Some(s) => Some(s@),
        None => None,
    }
}

impl View for InspectorRow {
    type V = RowModel;

    open spec fn view(&self) -> RowModel {
        RowModel {
            title: self.title@,
            source: self.source,
            world_line: self.world_line@,
            replication_line: self.replication_line@,
            server_id: opt_str(self.server_runtime_entity_id),
            client_id: opt_str(self.client_world_entity_id),
            accent: self.accent,
            sort_index: self.sort_index,
            sort_generation: self.sort_generation,
        }
    }
}

pub open spec fn models(rows: Seq<InspectorRow>) -> Seq<RowModel> {
    rows.map_values(|r: InspectorRow| r@)
}

/// Per-entity dirty bits of a client `World` entity.
#[derive(Clone, Copy, Debug, Default, PartialEq, Eq, Structural)]
pub struct DirtyFlags {
    pub transform: bool,
    pub health: bool,
    pub membership: bool,
    pub replication: bool,
}

/// A client `World` entity as the inspector reads it. `placement` is the
/// world's rendering of the entity's address and lifecycle
/// (`"{address} {lifecycle}"`), `content_id` that of its content id;
/// `replication_class` is the class name, or `None` when the entity is not
/// replicated.
#[derive(Clone, Debug)]
pub struct WorldEntityInput {
    pub id: EntityId,
    pub kind: EntityKind,
    pub placement: String,
    pub content_id: Option<String>,
    pub has_persistent_id: bool,
    pub replication_class: Option<String>,
    pub has_transform: bool,
    pub has_health: bool,
    pub dirty: DirtyFlags,
    pub interactable: Option<InteractableKind>,
}

pub open spec fn flag_char(b: bool, c: char) -> Seq<char> {
    if b {
        seq![c]
    } else {
        seq!['-']
    }
}

pub open spec fn bit_char(b: bool) -> Seq<char> {
    if b {
        seq!['1']
    } else {
        seq!['0']
    }
}

pub open spec fn interactable_name(k: InteractableKind) -> Seq<char> {
    match k {
        InteractableKind::Chest => "Chest"@,
        InteractableKind::Portal => "Portal"@,
    }
}

pub open spec fn head_part(e: WorldEntityInput) -> Seq<char> {
    e.placement@ + " content="@ + match e.content_id {
        Some(c) => c@,
        None => "-"@,
    } + " persist="@ + (if e.has_persistent_id {
        "yes"@
    } else {
        "no"@
    })
}

pub open spec fn caps_part(e: WorldEntityInput) -> Seq<char> {
    " caps="@ + flag_char(e.has_transform, 't') + flag_char(e.has_health, 'h') + match e.interactable {
        Some(k) => " interactable="@ + interactable_name(k),
        None => Seq::empty(),
    }
}

pub open spec fn dirty_part(d: DirtyFlags) -> Seq<char> {
    " dirty=t"@ + bit_char(d.transform) + "h"@ + bit_char(d.health) + "m"@ + bit_char(d.membership)
        + "r"@ + bit_char(d.replication)
}

/// `"{placement} content={id|-} persist={yes|no} caps={t|-}{h|-}[ interactable={kind}]
/// dirty=t{0|1}h{0|1}m{0|1}r{0|1}"`.
pub open spec fn world_line_spec(e: WorldEntityInput) -> Seq<char> {
    head_part(e) + caps_part(e) + dirty_part(e.dirty)
}

fn push_flag(s: &mut String, b: bool, c: char)
    ensures
        final(s)@ == old(s)@ + flag_char(b, c),
{
    if b {
        push_char(s, c);
    } else {
        push_char(s, '-');
    }
    assert(s@ =~= old(s)@ + flag_char(b, c));
}

fn push_bit(s: &mut String, b: bool)
    ensures
        final(s)@ == old(s)@ + bit_char(b),
{
    if b {
        push_char(s, '1');
    } else {
        push_char(s, '0');
    }
    assert(s@ =~= old(s)@ + bit_char(b));
}

fn push_head(s: &mut String, e: &WorldEntityInput)
    ensures
        final(s)@ == old(s)@ + head_part(*e),
{
    append_str(s, e.placement.as_str());
    append_str(s, " content=");
    match &e.content_id {
        Some(c) => append_str(s, c.as_str()),
        None => append_str(s, "-"),
    }
    append_str(s, " persist=");
    if e.has_persistent_id {
        append_str(s, "yes");
    } else {
        append_str(s, "no");
    }
    assert(s@ =~= old(s)@ + head_part(*e));
}

fn push_caps(s: &mut String, e: &WorldEntityInput)
    ensures
        final(s)@ == old(s)@ + caps_part(*e),
{
    append_str(s, " caps=");
    push_flag(s, e.has_transform, 't');
    push_flag(s, e.has_health, 'h');
    match e.interactable {
        Some(k) => {
            append_str(s, " interactable=");
            match k {
                InteractableKind::Chest => append_str(s, "Chest"),
                InteractableKind::Portal => append_str(s, "Portal"),
            }
        },
        None => {},
    }
    assert(s@ =~= old(s)@ + caps_part(*e));
}

fn push_dirty(s: &mut String, d: DirtyFlags)
    ensures
        final(s)@ == old(s)@ + dirty_part(d),
{
    append_str(s, " dirty=t");
    push_bit(s, d.transform);
    append_str(s, "h");
    push_bit(s, d.health);
    append_str(s, "m");
    push_bit(s, d.membership);
    append_str(s, "r");
    push_bit(s, d.replication);
    assert(s@ =~= old(s)@ + dirty_part(d));
}

/// The inspector's world line for an entity.
pub fn world_line(e: &WorldEntityInput) -> (s: String)
    ensures
        s@ == world_line_spec(*e),
{
    let mut s = String::new();
    push_head(&mut s, e);
    push_caps(&mut s, e);
    push_dirty(&mut s, e.dirty);
    assert(s@ =~= world_line_spec(*e));
    s
}

/// A Known replica entity as the inspector reads it.
#[derive(Clone, Copy, Debug)]
pub struct ReplicaRowInput {
    pub entity_id: WireEntityId,
    pub role: ReplicaRole,
    pub band_label: &'static str,
    pub recent: Option<&'static str>,
}

// ---------------------------------------------------------------------------
// Categories and titles

pub open spec fn world_category_spec(
    kind: EntityKind,
    interactable: Option<InteractableKind>,
) -> InspectorCategory {
    match kind {
        EntityKind::Player => InspectorCategory::Players,
        EntityKind::Platform => InspectorCategory::Platforms,
        EntityKind::Generic => match interactable {
            Some(InteractableKind::Portal) => InspectorCategory::Portals,
            Some(_) => InspectorCategory::Interactables,
            None => InspectorCategory::Other,
        },
    }
}

pub fn world_category(kind: EntityKind, interactable: Option<InteractableKind>) -> (c:
    InspectorCategory)
    ensures
        c == world_category_spec(kind, interactable),
{
    match kind {
        EntityKind::Player => InspectorCategory::Players,
        EntityKind::Platform => InspectorCategory::Platforms,
        EntityKind::Generic => match interactable {
            Some(InteractableKind::Portal) => InspectorCategory::Portals,
            Some(_) => InspectorCategory::Interactables,
            None => InspectorCategory::Other,
        },
    }
}

pub open spec fn world_title_spec(
    kind: EntityKind,
    id: EntityId,
    interactable: Option<InteractableKind>,
    local_player: bool,
) -> Seq<char> {
    let l = id_label(id.index, id.generation);
    if kind == EntityKind::Player {
        if local_player {
            "LOCAL PLAYER"@
        } else {
            "PLAYER "@ + l
        }
    } else if kind == EntityKind::Platform {
        "PLATFORM "@ + l
    } else if interactable == Some(InteractableKind::Portal) {
        "PORTAL "@ + l
    } else if interactable is Some {
        "INTERACTABLE "@ + l
    } else {
        "GENERIC "@ + l
    }
}

pub fn world_compact_title(
    kind: EntityKind,
    id: EntityId,
    interactable: Option<InteractableKind>,
    local_player: bool,
) -> (s: String)
    ensures
        s@ == world_title_spec(kind, id, interactable, local_player),
{
    if kind == EntityKind::Player && local_player {
        return owned("LOCAL PLAYER");
    }
    let mut s = if kind == EntityKind::Player {
        owned("PLAYER ")
    } else if kind == EntityKind::Platform {
        owned("PLATFORM ")
    } else {
        match interactable {
            Some(InteractableKind::Portal) => owned("PORTAL "),
            Some(_) => owned("INTERACTABLE "),
            None => owned("GENERIC "),
        }
    };
    let l = id.label();
    append_str(&mut s, l.as_str());
    s
}

pub open spec fn replica_title_spec(role: ReplicaRole, id: WireEntityId) -> Seq<char> {
    let l = id_label(id.index, id.generation);
    match role {
        ReplicaRole::LocalPlayer => "LOCAL PLAYER"@,
        ReplicaRole::RemotePlayer => "PLAYER "@ + l + " · REMOTE"@,
        ReplicaRole::Interactable => "INTERACTABLE "@ + l,
        ReplicaRole::Portal => "PORTAL "@ + l,
        ReplicaRole::Npc => "NPC "@ + l,
    }
}

pub fn replica_compact_title(row: &ReplicaRowInput) -> (s: String)
    ensures
        s@ == replica_title_spec(row.role, row.entity_id),
{
    let mut s = match row.role {
        ReplicaRole::LocalPlayer => {
            return owned("LOCAL PLAYER");
        },
        ReplicaRole::RemotePlayer => owned("PLAYER "),
        ReplicaRole::Interactable => owned("INTERACTABLE "),
        ReplicaRole::Portal => owned("PORTAL "),
        ReplicaRole::Npc => owned("NPC "),
    };
    let l = row.entity_id.label();
    append_str(&mut s, l.as_str());
    if row.role == ReplicaRole::RemotePlayer {
        append_str(&mut s, " · REMOTE");
    }
    s
}

// ---------------------------------------------------------------------------
// Rows

pub open spec fn world_accent(cat: InspectorCategory, is_local: bool) -> InspectorAccent {
    match cat {
        InspectorCategory::Players => if is_local {
            InspectorAccent::LocalPlayer
        } else {
            InspectorAccent::RemotePlayer
        },
        InspectorCategory::Interactables => InspectorAccent::Interactable,
        InspectorCategory::Portals => InspectorAccent::Portal,
        InspectorCategory::Platforms => InspectorAccent::Platform,
        InspectorCategory::Other => InspectorAccent::Other,
    }
}

pub open spec fn replication_line_spec(class: Option<Seq<char>>) -> Seq<char> {
    match class {
        None => "class=None · not replicated"@,
        Some(c) => "class="@ + c + " · local World metadata (not observer Known-set)"@,
    }
}

pub open spec fn world_row_spec(e: WorldEntityInput, local_player: Option<EntityId>) -> RowModel {
    let is_local = local_player == Some(e.id);
    RowModel {
        title: world_title_spec(e.kind, e.id, e.interactable, is_local),
        source: InspectorSource::World,
        world_line: world_line_spec(e),
        replication_line: replication_line_spec(opt_str(e.replication_class)),
        server_id: None,
        client_id: Some(id_label(e.id.index, e.id.generation)),
        accent: world_accent(world_category_spec(e.kind, e.interactable), is_local),
        sort_index: e.id.index,
        sort_generation: e.id.generation,
    }
}

pub fn world_row(entity: &WorldEntityInput, local_player: Option<EntityId>) -> (r: InspectorRow)
    ensures
        r@ == world_row_spec(*entity, local_player),
{
    let is_local = match local_player {
        Some(l) => l == entity.id,
        None => false,
    };
    let title = world_compact_title(entity.kind, entity.id, entity.interactable, is_local);
    let accent = match world_category(entity.kind, entity.interactable) {
        InspectorCategory::Players => if is_local {
            InspectorAccent::LocalPlayer
        } else {
            InspectorAccent::RemotePlayer
        },
        InspectorCategory::Interactables => InspectorAccent::Interactable,
        InspectorCategory::Portals => InspectorAccent::Portal,
        InspectorCategory::Platforms => InspectorAccent::Platform,
        InspectorCategory::Other => InspectorAccent::Other,
    };
    let replication_line = match &entity.replication_class {
        None => owned("class=None · not replicated"),
        Some(c) => {
            let mut s = owned("class=");
            append_str(&mut s, c.as_str());
            append_str(&mut s, " · local World metadata (not observer Known-set)");
            s
        },
    };
    InspectorRow {
        title,
        source: InspectorSource::World,
        world_line: world_line(entity),
        replication_line,
        server_runtime_entity_id: None,
        client_world_entity_id: Some(entity.id.label()),
        accent,
        sort_index: entity.id.index,
        sort_generation: entity.id.generation,
    }
}

pub open spec fn replica_accent(role: ReplicaRole) -> InspectorAccent {
    match role {
        ReplicaRole::LocalPlayer => InspectorAccent::LocalPlayer,
        ReplicaRole::RemotePlayer => InspectorAccent::RemotePlayer,
        ReplicaRole::Interactable => InspectorAccent::Interactable,
        ReplicaRole::Portal => InspectorAccent::Portal,
        ReplicaRole::Npc => InspectorAccent::Other,
    }
}

pub open spec fn replica_row_spec(r: ReplicaRowInput) -> RowModel {
    RowModel {
        title: replica_title_spec(r.role, r.entity_id),
        source: InspectorSource::Replica,
        world_line: "— (server RuntimeEntityId; not a local World slot)"@,
        replication_line: match r.recent {
            Some(s) => r.band_label@ + " · "@ + s@,
            None => r.band_label@,
        },
        server_id: Some(id_label(r.entity_id.index, r.entity_id.generation)),
        client_id: None,
        accent: replica_accent(r.role),
        sort_index: r.entity_id.index,
        sort_generation: r.entity_id.generation,
    }
}

pub fn replica_row(row: &ReplicaRowInput) -> (r: InspectorRow)
    ensures
        r@ == replica_row_spec(*row),
{
    let title = replica_compact_title(row);
    let accent = match row.role {
        ReplicaRole::LocalPlayer => InspectorAccent::LocalPlayer,
        ReplicaRole::RemotePlayer => InspectorAccent::RemotePlayer,
        ReplicaRole::Interactable => InspectorAccent::Interactable,
        ReplicaRole::Portal => InspectorAccent::Portal,
        ReplicaRole::Npc => InspectorAccent::Other,
    };
    let mut replication_line = owned(row.band_label);
    match row.recent {
        Some(s) => {
            append_str(&mut replication_line, " · ");
            append_str(&mut replication_line, s);
        },
        None => {},
    }
    InspectorRow {
        title,
        source: InspectorSource::Replica,
        world_line: owned("— (server RuntimeEntityId; not a local World slot)"),
        replication_line,
        server_runtime_entity_id: Some(row.entity_id.label()),
        client_world_entity_id: None,
        accent,
        sort_index: row.entity_id.index,
        sort_generation: row.entity_id.generation,
    }
}

pub open spec fn opt_model(o: Option<InspectorRow>) -> Option<RowModel> {
    match o {
        Some(r) => Some(r@),
        None => None,
    }
}

/// The one semantic local-player row, carrying the `World` slot of `world`
/// and the server id of `replica`. Sorting uses the replica id when present.
pub open spec fn merge_local_spec(world: Option<RowModel>, replica: Option<RowModel>) -> RowModel {
    let key_src = if replica is Some {
        replica
    } else {
        world
    };
    RowModel {
        title: "LOCAL PLAYER"@,
        source: InspectorSource::LocalPlayer,
        world_line: match world {
            Some(w) => w.world_line,
            None => "— (no local World slot)"@,
        },
        replication_line: match replica {
            Some(r) => r.replication_line,
            None => "— (no observer Known-set entry)"@,
        },
        server_id: match replica {
            Some(r) => r.server_id,
            None => None,
        },
        client_id: match world {
            Some(w) => w.client_id,
            None => None,
        },
        accent: InspectorAccent::LocalPlayer,
        sort_index: match key_src {
            Some(k) => k.sort_index,
            None => 0,
        },
        sort_generation: match key_src {
            Some(k) => k.sort_generation,
            None => 0,
        },
    }
}

fn clone_opt(o: &Option<String>) -> (r: Option<String>)
    ensures
        opt_str(r) == opt_str(*o),
{
    match o {
        Some(s) => Some(s.clone()),
        None => None,
    }
}

pub fn merge_local_player_row(world: Option<InspectorRow>, replica: Option<InspectorRow>) -> (r:
    InspectorRow)
    ensures
        r@ == merge_local_spec(opt_model(world), opt_model(replica)),
{
    let client_world_entity_id = match &world {
        Some(w) => clone_opt(&w.client_world_entity_id),
        None => None,
    };
    let server_runtime_entity_id = match &replica {
        Some(r) => clone_opt(&r.server_runtime_entity_id),
        None => None,
    };
    let world_line = match &world {
        Some(w) => w.world_line.clone(),
        None => owned("— (no local World slot)"),
    };
    let replication_line = match &replica {
        Some(r) => r.replication_line.clone(),
        None => owned("— (no observer Known-set entry)"),
    };
    let (sort_index, sort_generation) = match &replica {
        Some(r) => (r.sort_index, r.sort_generation),
        None => match &world {
            Some(w) => (w.sort_index, w.sort_generation),
            None => (0, 0),
        },
    };
    InspectorRow {
        title: owned("LOCAL PLAYER"),
        source: InspectorSource::LocalPlayer,
        world_line,
        replication_line,
        server_runtime_entity_id,
        client_world_entity_id,
        accent: InspectorAccent::LocalPlayer,
        sort_index,
        sort_generation,
    }
}

// ---------------------------------------------------------------------------
// Ordering

pub open spec fn source_rank(s: InspectorSource) -> u8 {
    match s {
        InspectorSource::LocalPlayer => 0,
        InspectorSource::Replica => 1,
        InspectorSource::World => 2,
    }
}

pub open spec fn accent_rank(a: InspectorAccent) -> u8 {
    match a {
        InspectorAccent::LocalPlayer => 0,
        InspectorAccent::RemotePlayer => 1,
        InspectorAccent::Interactable => 2,
        InspectorAccent::Portal => 3,
        InspectorAccent::Platform => 4,
        InspectorAccent::Other => 5,
    }
}

pub open spec fn key_spec(r: RowModel) -> (u8, u8, u32, u32) {
    (source_rank(r.source), accent_rank(r.accent), r.sort_index, r.sort_generation)
}

/// Lexicographic order on sort keys.
pub open spec fn key_le(a: (u8, u8, u32, u32), b: (u8, u8, u32, u32)) -> bool {
    a.0 < b.0 || (a.0 == b.0 && (a.1 < b.1 || (a.1 == b.1 && (a.2 < b.2 || (a.2 == b.2 && a.3
        <= b.3)))))
}

/// Sort key: source, then accent, then id.
pub fn sort_key(row: &InspectorRow) -> (k: (u8, u8, u32, u32))
    ensures
        k == key_spec(row@),
{
    let source_rank: u8 = match row.source {
        InspectorSource::LocalPlayer => 0,
        InspectorSource::Replica => 1,
        InspectorSource::World => 2,
    };
    let accent_rank: u8 = match row.accent {
        InspectorAccent::LocalPlayer => 0,
        InspectorAccent::RemotePlayer => 1,
        InspectorAccent::Interactable => 2,
        InspectorAccent::Portal => 3,
        InspectorAccent::Platform => 4,
        InspectorAccent::Other => 5,
    };
    (source_rank, accent_rank, row.sort_index, row.sort_generation)
}

fn key_le_exec(a: (u8, u8, u32, u32), b: (u8, u8, u32, u32)) -> (r: bool)
    ensures
        r == key_le(a, b),
{
    a.0 < b.0 || (a.0 == b.0 && (a.1 < b.1 || (a.1 == b.1 && (a.2 < b.2 || (a.2 == b.2 && a.3
        <= b.3)))))
}

/// Stable insertion: `x` goes after every row whose key is not greater.
pub open spec fn insert_sorted(s: Seq<RowModel>, x: RowModel) -> Seq<RowModel>
    decreases s.len(),
{
    if s.len() == 0 {
        seq![x]
    } else if key_le(key_spec(s.last()), key_spec(x)) {
        s.push(x)
    } else {
        insert_sorted(s.drop_last(), x).push(s.last())
    }
}

/// Stable insertion sort by [`key_spec`].
pub open spec fn sort_spec(s: Seq<RowModel>) -> Seq<RowModel>
    decreases s.len(),
{
    if s.len() == 0 {
        s
    } else {
        insert_sorted(sort_spec(s.drop_last()), s.last())
    }
}

proof fn lemma_insert_sorted_at(s: Seq<RowModel>, x: RowModel, p: int)
    requires
        0 <= p <= s.len(),
        p == 0 || key_le(key_spec(s[p - 1]), key_spec(x)),
        forall|i: int| p <= i < s.len() ==> !key_le(key_spec(#[trigger] s[i]), key_spec(x)),
    ensures
        insert_sorted(s, x) == s.insert(p, x),
    decreases s.len(),
{
    if s.len() == 0 {
        assert(s.insert(p, x) =~= seq![x]);
    } else if p == s.len() {
        assert(s.insert(p, x) =~= s.push(x));
    } else {
        let d = s.drop_last();
        assert forall|i: int| p <= i < d.len() implies !key_le(key_spec(#[trigger] d[i]), key_spec(x)) by {
            assert(d[i] == s[i]);
        }
        lemma_insert_sorted_at(d, x, p);
        assert(!key_le(key_spec(s.last()), key_spec(x)));
        assert(d.insert(p, x).push(s.last()) =~= s.insert(p, x));
    }
}

proof fn lemma_models_push(s: Seq<InspectorRow>, m: RowModel)
    ensures
        forall|x: InspectorRow| x@ == m ==> models(#[trigger] s.push(x)) == models(s).push(m),
{
    assert forall|x: InspectorRow| x@ == m implies models(#[trigger] s.push(x)) == models(s).push(m) by {
        assert(models(s.push(x)) =~= models(s).push(m));
    }
}

fn insert_row_sorted(out: &mut Vec<InspectorRow>, x: InspectorRow)
    ensures
        models(final(out)@) == insert_sorted(models(old(out)@), x@),
{
    let kx = sort_key(&x);
    let mut p = out.len();
    let mut found = false;
    while p > 0 && !found
        invariant
            p <= out@.len(),
            out@ == old(out)@,
            kx == key_spec(x@),
            found ==> p > 0 && key_le(key_spec(out@[p - 1]@), kx),
            forall|i: int| p <= i < out@.len() ==> !key_le(key_spec(#[trigger] out@[i]@), kx),
        decreases p + (if found { 0int } else { 1int }),
    {
        let kp = sort_key(&out[p - 1]);
        if key_le_exec(kp, kx) {
            found = true;
        } else {
            p = p - 1;
        }
    }
    proof {
        let m = models(out@);
        assert forall|i: int| p <= i < m.len() implies !key_le(key_spec(#[trigger] m[i]), key_spec(x@)) by {
            assert(m[i] == out@[i]@);
        }
        if p > 0 {
            assert(m[p - 1] == out@[p - 1]@);
        }
        lemma_insert_sorted_at(m, x@, p as int);
    }
    out.insert(p, x);
    proof {
        assert(models(out@) =~= models(old(out)@).insert(p as int, x@));
    }
}

/// Rows in stable key order.
pub fn sort_rows(rows: Vec<InspectorRow>) -> (r: Vec<InspectorRow>)
    ensures
        models(r@) == sort_spec(models(rows@)),
{
    let mut rest = rows;
    let mut out: Vec<InspectorRow> = Vec::new();
    let ghost all = models(rows@);
    let n = rest.len();
    let mut k: usize = 0;
    while k < n
        invariant
            n == all.len(),
            k <= n,
            models(rest@) == all.skip(k as int),
            models(out@) == sort_spec(all.take(k as int)),
        decreases n - k,
    {
        proof {
            assert(all.skip(k as int).len() == n - k);
        }
        let ghost before = rest@;
        proof {
            assert(models(before)[0] == before[0]@);
            assert(all.skip(k as int)[0] == all[k as int]);
        }
        let x = rest.remove(0);
        proof {
            assert(x@ == all[k as int]);
            assert(all.take(k + 1).drop_last() =~= all.take(k as int));
            assert forall|i: int| 0 <= i < rest@.len() implies #[trigger] models(rest@)[i] == all.skip(k + 1)[i] by {
                assert(rest@[i] == before[i + 1]);
                assert(models(before)[i + 1] == before[i + 1]@);
                assert(all.skip(k as int)[i + 1] == all.skip(k + 1)[i]);
            }
            assert(models(rest@) =~= all.skip(k + 1));
        }
        insert_row_sorted(&mut out, x);
        k = k + 1;
    }
    proof {
        assert(all.take(n as int) =~= all);
    }
    out
}

// ---------------------------------------------------------------------------
// Categorized view

#[derive(Clone, Debug)]
pub struct InspectorView {
    pub players: Vec<InspectorRow>,
    pub interactables: Vec<InspectorRow>,
    pub portals: Vec<InspectorRow>,
    pub platforms: Vec<InspectorRow>,
    pub other: Vec<InspectorRow>,
}

impl Default for InspectorView {
    fn default() -> (v: Self)
        ensures
            v.players@.len() == 0 && v.interactables@.len() == 0 && v.portals@.len() == 0
                && v.platforms@.len() == 0 && v.other@.len() == 0,
    {
        InspectorView {
            players: Vec::new(),
            interactables: Vec::new(),
            portals: Vec::new(),
            platforms: Vec::new(),
            other: Vec::new(),
        }
    }
}

pub open spec fn is_local_world(e: WorldEntityInput, local: Option<EntityId>) -> bool {
    e.kind == EntityKind::Player && local == Some(e.id)
}

/// World rows of category `cat`, in input order, without the local player.
pub open spec fn world_rows_in(
    es: Seq<WorldEntityInput>,
    local: Option<EntityId>,
    cat: InspectorCategory,
) -> Seq<RowModel>
    decreases es.len(),
{
    if es.len() == 0 {
        Seq::empty()
    } else {
        let rest = world_rows_in(es.drop_last(), local, cat);
        let e = es.last();
        if !is_local_world(e, local) && world_category_spec(e.kind, e.interactable) == cat {
            rest.push(world_row_spec(e, local))
        } else {
            rest
        }
    }
}

/// Replica rows with role `role`, in input order.
pub open spec fn replica_rows_in(rs: Seq<ReplicaRowInput>, role: ReplicaRole) -> Seq<RowModel>
    decreases rs.len(),
{
    if rs.len() == 0 {
        Seq::empty()
    } else {
        let rest = replica_rows_in(rs.drop_last(), role);
        if rs.last().role == role {
            rest.push(replica_row_spec(rs.last()))
        } else {
            rest
        }
    }
}

/// Row of the last world entity that is the local player.
pub open spec fn local_world_row(es: Seq<WorldEntityInput>, local: Option<EntityId>) -> Option<
    RowModel,
>
    decreases es.len(),
{
    if es.len() == 0 {
        None
    } else if is_local_world(es.last(), local) {
        Some(world_row_spec(es.last(), local))
    } else {
        local_world_row(es.drop_last(), local)
    }
}

/// Row of the last replica entry for the local player.
pub open spec fn local_replica_row(rs: Seq<ReplicaRowInput>) -> Option<RowModel>
    decreases rs.len(),
{
    if rs.len() == 0 {
        None
    } else if rs.last().role == ReplicaRole::LocalPlayer {
        Some(replica_row_spec(rs.last()))
    } else {
        local_replica_row(rs.drop_last())
    }
}

pub open spec fn local_rows(es: Seq<WorldEntityInput>, local: Option<EntityId>, rs: Seq<ReplicaRowInput>) -> Seq<RowModel> {
    let w = local_world_row(es, local);
    let r = local_replica_row(rs);
    if w is Some || r is Some {
        seq![merge_local_spec(w, r)]
    } else {
        Seq::empty()
    }
}

pub open spec fn build_players(es: Seq<WorldEntityInput>, local: Option<EntityId>, rs: Seq<ReplicaRowInput>) -> Seq<RowModel> {
    sort_spec(
        world_rows_in(es, local, InspectorCategory::Players) + replica_rows_in(
            rs,
            ReplicaRole::RemotePlayer,
        ) + local_rows(es, local, rs),
    )
}

pub open spec fn build_category(
    es: Seq<WorldEntityInput>,
    local: Option<EntityId>,
    rs: Seq<ReplicaRowInput>,
    cat: InspectorCategory,
) -> Seq<RowModel> {
    match cat {
        InspectorCategory::Players => build_players(es, local, rs),
        InspectorCategory::Interactables => sort_spec(
            world_rows_in(es, local, cat) + replica_rows_in(rs, ReplicaRole::Interactable),
        ),
        InspectorCategory::Portals => sort_spec(
            world_rows_in(es, local, cat) + replica_rows_in(rs, ReplicaRole::Portal),
        ),
        InspectorCategory::Platforms => sort_spec(world_rows_in(es, local, cat)),
        InspectorCategory::Other => sort_spec(
            world_rows_in(es, local, cat) + replica_rows_in(rs, ReplicaRole::Npc),
        ),
    }
}

pub open spec fn category_rows(v: InspectorView, cat: InspectorCategory) -> Seq<InspectorRow> {
    match cat {
        InspectorCategory::Players => v.players@,
        InspectorCategory::Interactables => v.interactables@,
        InspectorCategory::Portals => v.portals@,
        InspectorCategory::Platforms => v.platforms@,
        InspectorCategory::Other => v.other@,
    }
}

/// Build categorized inspector rows: world rows by category, Known replica
/// rows by role, the local player merged into one row, each category in
/// stable key order.
pub fn build(
    world_entities: &[WorldEntityInput],
    local_world_player: Option<EntityId>,
    replica_rows: &[ReplicaRowInput],
) -> (view: InspectorView)
    ensures
        forall|cat: InspectorCategory|
            models(#[trigger] category_rows(view, cat)) == build_category(
                world_entities@,
                local_world_player,
                replica_rows@,
                cat,
            ),
{
    let ghost es = world_entities@;
    let ghost rs = replica_rows@;
    let mut players: Vec<InspectorRow> = Vec::new();
    let mut interactables: Vec<InspectorRow> = Vec::new();
    let mut portals: Vec<InspectorRow> = Vec::new();
    let mut platforms: Vec<InspectorRow> = Vec::new();
    let mut other: Vec<InspectorRow> = Vec::new();
    let mut world_local: Option<InspectorRow> = None;
    let n = world_entities.len();
    let mut i: usize = 0;
    while i < n
        invariant
            n == es.len(),
            es == world_entities@,
            i <= n,
            models(players@) == world_rows_in(es.take(i as int), local_world_player, InspectorCategory::Players),
            models(interactables@) == world_rows_in(es.take(i as int), local_world_player, InspectorCategory::Interactables),
            models(portals@) == world_rows_in(es.take(i as int), local_world_player, InspectorCategory::Portals),
            models(platforms@) == world_rows_in(es.take(i as int), local_world_player, InspectorCategory::Platforms),
            models(other@) == world_rows_in(es.take(i as int), local_world_player, InspectorCategory::Other),
            opt_model(world_local) == local_world_row(es.take(i as int), local_world_player),
        decreases n - i,
    {
        let entity = &world_entities[i];
        proof {
            assert(es.take(i + 1).drop_last() =~= es.take(i as int));
            assert(es.take(i + 1).last() == es[i as int]);
        }
        let row = world_row(entity, local_world_player);
        let is_local_world_player = entity.kind == EntityKind::Player && match local_world_player {
            Some(l) => l == entity.id,
            None => false,
        };
        if is_local_world_player {
            world_local = Some(row);
        } else {
            match world_category(entity.kind, entity.interactable) {
                InspectorCategory::Players => players.push(row),
                InspectorCategory::Interactables => interactables.push(row),
                InspectorCategory::Portals => portals.push(row),
                InspectorCategory::Platforms => platforms.push(row),
                InspectorCategory::Other => other.push(row),
            }
        }
        proof {
            let t = es.take(i + 1);
            assert(models(players@) =~= world_rows_in(t, local_world_player, InspectorCategory::Players));
            assert(models(interactables@) =~= world_rows_in(t, local_world_player, InspectorCategory::Interactables));
            assert(models(portals@) =~= world_rows_in(t, local_world_player, InspectorCategory::Portals));
            assert(models(platforms@) =~= world_rows_in(t, local_world_player, InspectorCategory::Platforms));
            assert(models(other@) =~= world_rows_in(t, local_world_player, InspectorCategory::Other));
        }
        i = i + 1;
    }
    proof {
        assert(es.take(n as int) =~= es);
    }
    let ghost wp = models(players@);
    let ghost wi = models(interactables@);
    let ghost wo = models(portals@);
    let ghost wx = models(other@);
    let mut replica_local: Option<InspectorRow> = None;
    let m = replica_rows.len();
    let mut j: usize = 0;
    while j < m
        invariant
            m == rs.len(),
            rs == replica_rows@,
            j <= m,
            models(players@) == wp + replica_rows_in(rs.take(j as int), ReplicaRole::RemotePlayer),
            models(interactables@) == wi + replica_rows_in(rs.take(j as int), ReplicaRole::Interactable),
            models(portals@) == wo + replica_rows_in(rs.take(j as int), ReplicaRole::Portal),
            models(other@) == wx + replica_rows_in(rs.take(j as int), ReplicaRole::Npc),
            opt_model(replica_local) == local_replica_row(rs.take(j as int)),
        decreases m - j,
    {
        let r = &replica_rows[j];
        proof {
            assert(rs.take(j + 1).drop_last() =~= rs.take(j as int));
            assert(rs.take(j + 1).last() == rs[j as int]);
        }
        let row = replica_row(r);
        let ghost rowm = row@;
        let ghost p0 = players@;
        let ghost i0 = interactables@;
        let ghost o0 = portals@;
        let ghost x0 = other@;
        match r.role {
            ReplicaRole::LocalPlayer => {
                replica_local = Some(row);
            },
            ReplicaRole::RemotePlayer => players.push(row),
            ReplicaRole::Interactable => interactables.push(row),
            ReplicaRole::Portal => portals.push(row),
            ReplicaRole::Npc => other.push(row),
        }
        proof {
            let t = rs.take(j + 1);
            lemma_models_push(p0, rowm);
            lemma_models_push(i0, rowm);
            lemma_models_push(o0, rowm);
            lemma_models_push(x0, rowm);
            assert(models(players@) =~= wp + replica_rows_in(t, ReplicaRole::RemotePlayer));
            assert(models(interactables@) =~= wi + replica_rows_in(t, ReplicaRole::Interactable));
            assert(models(portals@) =~= wo + replica_rows_in(t, ReplicaRole::Portal));
            assert(models(other@) =~= wx + replica_rows_in(t, ReplicaRole::Npc));
        }
        j = j + 1;
    }
    proof {
        assert(rs.take(m as int) =~= rs);
    }
    let ghost before_local = models(players@);
    if world_local.is_some() || replica_local.is_some() {
        let merged = merge_local_player_row(world_local, replica_local);
        players.push(merged);
    }
    proof {
        assert(models(players@) =~= before_local + local_rows(es, local_world_player, rs));
        assert(models(platforms@) =~= world_rows_in(es, local_world_player, InspectorCategory::Platforms));
    }
    let view = InspectorView {
        players: sort_rows(players),
        interactables: sort_rows(interactables),
        portals: sort_rows(portals),
        platforms: sort_rows(platforms),
        other: sort_rows(other),
    };
    proof {
        assert forall|cat: InspectorCategory|
            models(#[trigger] category_rows(view, cat)) == build_category(es, local_world_player, rs, cat) by {
            match cat {
                InspectorCategory::Platforms => {
                    assert(world_rows_in(es, local_world_player, InspectorCategory::Platforms) =~= world_rows_in(es, local_world_player, InspectorCategory::Platforms));
                },
                _ => {},
            }
        }
    }
    view
}

// ---------------------------------------------------------------------------
// Laws of the ordering and of the categorized view

pub open spec fn sorted_by_key(s: Seq<RowModel>) -> bool {
    forall|i: int, j: int| 0 <= i < j < s.len() ==> key_le(key_spec(#[trigger] s[i]), key_spec(#[trigger] s[j]))
}

proof fn lemma_insert_sorted_props(s: Seq<RowModel>, x: RowModel)
    requires
        sorted_by_key(s),
    ensures
        sorted_by_key(insert_sorted(s, x)),
        insert_sorted(s, x).to_multiset() == s.to_multiset().insert(x),
        insert_sorted(s, x).len() == s.len() + 1,
    decreases s.len(),
{
    broadcast use vstd::seq_lib::group_to_multiset_ensures;

    if s.len() == 0 {
        assert(seq![x] =~= Seq::<RowModel>::empty().push(x));
        assert(Seq::<RowModel>::empty().to_multiset() =~= Multiset::<RowModel>::empty());
    } else if key_le(key_spec(s.last()), key_spec(x)) {
        let r = s.push(x);
        assert forall|i: int, j: int| 0 <= i < j < r.len() implies key_le(key_spec(#[trigger] r[i]), key_spec(#[trigger] r[j])) by {
            if j == s.len() {
                if i < s.len() - 1 {
                    assert(key_le(key_spec(s[i]), key_spec(s[s.len() - 1])));
                }
            }
        }
    } else {
        let d = s.drop_last();
        assert(sorted_by_key(d)) by {
            assert forall|i: int, j: int| 0 <= i < j < d.len() implies key_le(key_spec(#[trigger] d[i]), key_spec(#[trigger] d[j])) by {
                assert(d[i] == s[i] && d[j] == s[j]);
            }
        }
        lemma_insert_sorted_props(d, x);
        let t = insert_sorted(d, x);
        let r = t.push(s.last());
        assert forall|i: int, j: int| 0 <= i < j < r.len() implies key_le(key_spec(#[trigger] r[i]), key_spec(#[trigger] r[j])) by {
            if j == t.len() {
                // every element of t is x or an element of d, all not above s.last()
                assert(t.to_multiset().count(t[i]) > 0) by {
                    assert(t.contains(t[i]));
                }
                if t[i] == x {
                } else {
                    assert(d.to_multiset().insert(x).count(t[i]) > 0);
                    assert(d.to_multiset().count(t[i]) > 0);
                    assert(d.contains(t[i]));
                    let k = choose|k: int| 0 <= k < d.len() && d[k] == t[i];
                    assert(key_le(key_spec(s[k]), key_spec(s[s.len() - 1])));
                }
            }
        }
        assert(s =~= d.push(s.last()));
        assert(s.to_multiset() == d.to_multiset().insert(s.last()));
        assert(r.to_multiset() =~= s.to_multiset().insert(x));
    }
}

/// The inspector ordering is a sort: the result is in key order and holds
/// exactly the input rows.
pub proof fn lemma_sort_spec_sorted_permutation(s: Seq<RowModel>)
    ensures
        sorted_by_key(sort_spec(s)),
        sort_spec(s).to_multiset() == s.to_multiset(),
        sort_spec(s).len() == s.len(),
    decreases s.len(),
{
    broadcast use vstd::seq_lib::group_to_multiset_ensures;

    if s.len() > 0 {
        lemma_sort_spec_sorted_permutation(s.drop_last());
        lemma_insert_sorted_props(sort_spec(s.drop_last()), s.last());
        assert(s =~= s.drop_last().push(s.last()));
    }
}

proof fn lemma_world_rows_are_world(es: Seq<WorldEntityInput>, local: Option<EntityId>, cat: InspectorCategory)
    ensures
        forall|i: int| 0 <= i < world_rows_in(es, local, cat).len() ==> {
            let r = #[trigger] world_rows_in(es, local, cat)[i];
            &&& r.source == InspectorSource::World
            &&& r.server_id is None
            &&& r.client_id is Some
        },
    decreases es.len(),
{
    if es.len() > 0 {
        lemma_world_rows_are_world(es.drop_last(), local, cat);
    }
}

proof fn lemma_replica_rows_are_replica(rs: Seq<ReplicaRowInput>, role: ReplicaRole)
    ensures
        forall|i: int| 0 <= i < replica_rows_in(rs, role).len() ==> {
            let r = #[trigger] replica_rows_in(rs, role)[i];
            &&& r.source == InspectorSource::Replica
            &&& r.server_id is Some
            &&& r.client_id is None
        },
    decreases rs.len(),
{
    if rs.len() > 0 {
        lemma_replica_rows_are_replica(rs.drop_last(), role);
    }
}

pub open spec fn is_local_row(r: RowModel) -> bool {
    r.source == InspectorSource::LocalPlayer
}

/// The local player is one semantic row: the Players category holds at most
/// one local-player row, sorted first, and it is present exactly when the
/// world or the replica knows the local player. No other row mixes the two
/// id namespaces: world rows carry only a `World` slot, replica rows only a
/// server id.
pub proof fn lemma_local_player_is_one_row(
    es: Seq<WorldEntityInput>,
    local: Option<EntityId>,
    rs: Seq<ReplicaRowInput>,
)
    ensures
        ({
            let p = build_players(es, local, rs);
            let has_local = local_world_row(es, local) is Some || local_replica_row(rs) is Some;
            &&& p.to_multiset().count(merge_local_spec(local_world_row(es, local), local_replica_row(rs))) >= (if has_local { 1nat } else { 0nat })
            &&& forall|i: int, j: int| 0 <= i < p.len() && 0 <= j < p.len() && is_local_row(#[trigger] p[i]) && is_local_row(#[trigger] p[j]) ==> i == j
            &&& has_local ==> is_local_row(p[0])
            &&& !has_local ==> forall|i: int| 0 <= i < p.len() ==> !is_local_row(#[trigger] p[i])
            &&& forall|i: int| 0 <= i < p.len() && !is_local_row(#[trigger] p[i]) ==> (p[i].server_id is None) != (p[i].client_id is None)
        }),
{
    broadcast use vstd::seq_lib::group_to_multiset_ensures;

    let w = world_rows_in(es, local, InspectorCategory::Players);
    let r = replica_rows_in(rs, ReplicaRole::RemotePlayer);
    let l = local_rows(es, local, rs);
    let u = w + r + l;
    let p = sort_spec(u);
    lemma_world_rows_are_world(es, local, InspectorCategory::Players);
    lemma_replica_rows_are_replica(rs, ReplicaRole::RemotePlayer);
    lemma_sort_spec_sorted_permutation(u);
    let has_local = local_world_row(es, local) is Some || local_replica_row(rs) is Some;
    // every row of p is a row of u
    assert forall|i: int| 0 <= i < p.len() implies u.contains(#[trigger] p[i]) by {
        assert(p.contains(p[i]));
        assert(p.to_multiset().count(p[i]) > 0);
    }
    // rows of u: local rows only at the end
    assert forall|k: int| 0 <= k < u.len() && is_local_row(#[trigger] u[k]) implies k == u.len() - 1 && has_local by {
        if k < w.len() {
            assert(u[k] == w[k]);
        } else if k < w.len() + r.len() {
            assert(u[k] == r[k - w.len()]);
        } else {
            assert(u[k] == l[k - w.len() - r.len()]);
        }
    }
    assert forall|k: int| 0 <= k < u.len() && !is_local_row(#[trigger] u[k]) implies (u[k].server_id is None) != (u[k].client_id is None) by {
        if k < w.len() {
            assert(u[k] == w[k]);
        } else if k < w.len() + r.len() {
            assert(u[k] == r[k - w.len()]);
        } else {
            assert(u[k] == l[k - w.len() - r.len()]);
        }
    }
    if has_local {
        let m = merge_local_spec(local_world_row(es, local), local_replica_row(rs));
        assert(u[u.len() - 1] == m);
        assert(u.contains(m));
        assert(u.to_multiset().count(m) > 0);
        assert(u.to_multiset().count(m) <= 1) by {
            // m is the only local row of u, occurring once
            assert forall|k: int| 0 <= k < u.len() - 1 implies #[trigger] u[k] != m by {
                if is_local_row(u[k]) {}
            }
            let v = u.drop_last();
            assert(u =~= v.push(m));
            assert(!v.contains(m)) by {
                if v.contains(m) {
                    let k = choose|k: int| 0 <= k < v.len() && v[k] == m;
                    assert(u[k] == m);
                }
            }
            assert(v.to_multiset().count(m) == 0);
        }
        // local row is sorted first: its key is minimal
        assert(p.contains(m)) by {
            assert(p.to_multiset().count(m) > 0);
        }
        let km = choose|k: int| 0 <= k < p.len() && p[k] == m;
        if km != 0 {
            assert(key_le(key_spec(p[0]), key_spec(p[km])));
            assert(u.contains(p[0]));
            let k0 = choose|k: int| 0 <= k < u.len() && u[k] == p[0];
            assert(is_local_row(p[0]));
        }
    }
    assert forall|i: int, j: int| 0 <= i < p.len() && 0 <= j < p.len() && is_local_row(#[trigger] p[i]) && is_local_row(#[trigger] p[j]) implies i == j by {
        let ki = choose|k: int| 0 <= k < u.len() && u[k] == p[i];
        let kj = choose|k: int| 0 <= k < u.len() && u[k] == p[j];
        assert(p[i] == p[j]);
        if i != j {
            // two copies of the single local row would need count >= 2
            let m = p[i];
            assert(u.to_multiset().count(m) <= 1) by {
                let v = u.drop_last();
                assert(u =~= v.push(u.last()));
                assert(!v.contains(m)) by {
                    if v.contains(m) {
                        let k = choose|k: int| 0 <= k < v.len() && v[k] == m;
                        assert(u[k] == m);
                    }
                }
                assert(v.to_multiset().count(m) == 0);
            }
            lemma_two_positions_count(p, i, j);
        }
    }
    assert forall|i: int| 0 <= i < p.len() && !is_local_row(#[trigger] p[i]) implies (p[i].server_id is None) != (p[i].client_id is None) by {
        let k = choose|k: int| 0 <= k < u.len() && u[k] == p[i];
    }
    if !has_local {
        assert forall|i: int| 0 <= i < p.len() implies !is_local_row(#[trigger] p[i]) by {
            let k = choose|k: int| 0 <= k < u.len() && u[k] == p[i];
        }
    }
}

proof fn lemma_two_positions_count(s: Seq<RowModel>, i: int, j: int)
    requires
        0 <= i < s.len(),
        0 <= j < s.len(),
        i != j,
        s[i] == s[j],
    ensures
        s.to_multiset().count(s[i]) >= 2,
    decreases s.len(),
{
    broadcast use vstd::seq_lib::group_to_multiset_ensures;

    let d = s.drop_last();
    assert(s =~= d.push(s.last()));
    if i == s.len() - 1 {
        assert(d.contains(s[j]));
        assert(d.to_multiset().count(s[i]) >= 1);
    } else if j == s.len() - 1 {
        assert(d.contains(s[i]));
        assert(d.to_multiset().count(s[i]) >= 1);
    } else {
        lemma_two_positions_count(d, i, j);
    }
}

// ---------------------------------------------------------------------------
// Counts and summaries

pub open spec fn count_known(s: Seq<RowModel>) -> nat
    decreases s.len(),
{
    if s.len() == 0 {
        0
    } else {
        count_known(s.drop_last()) + if s.last().server_id is Some {
            1nat
        } else {
            0nat
        }
    }
}

pub open spec fn count_replica(s: Seq<RowModel>) -> nat
    decreases s.len(),
{
    if s.len() == 0 {
        0
    } else {
        count_replica(s.drop_last()) + if s.last().source == InspectorSource::Replica {
            1nat
        } else {
            0nat
        }
    }
}

pub open spec fn count_world(s: Seq<RowModel>) -> nat
    decreases s.len(),
{
    if s.len() == 0 {
        0
    } else {
        count_world(s.drop_last()) + if s.last().client_id is Some || s.last().source
            == InspectorSource::World {
            1nat
        } else {
            0nat
        }
    }
}

pub open spec fn all_class_none(s: Seq<RowModel>) -> bool {
    forall|i: int| 0 <= i < s.len() ==> contains_seq(#[trigger] s[i].replication_line, "class=None"@)
}

/// `"{k} Known"`, `"{w} World"` or `"{k} Known · {w} World"`.
pub open spec fn known_and_world_spec(known: nat, world: nat) -> Seq<char> {
    if world == 0 {
        decimal(known) + " Known"@
    } else if known == 0 {
        decimal(world) + " World"@
    } else {
        decimal(known) + " Known · "@ + decimal(world) + " World"@
    }
}

pub fn known_and_world(known: usize, world: usize) -> (s: String)
    ensures
        s@ == known_and_world_spec(known as nat, world as nat),
{
    let mut s = String::new();
    if world == 0 {
        append_decimal(&mut s, known as u64);
        append_str(&mut s, " Known");
    } else if known == 0 {
        append_decimal(&mut s, world as u64);
        append_str(&mut s, " World");
    } else {
        append_decimal(&mut s, known as u64);
        append_str(&mut s, " Known · ");
        append_decimal(&mut s, world as u64);
        append_str(&mut s, " World");
    }
    assert(s@ =~= known_and_world_spec(known as nat, world as nat));
    s
}

pub open spec fn category_summary_spec(v: InspectorView, cat: InspectorCategory) -> Seq<char> {
    match cat {
        InspectorCategory::Platforms => if all_class_none(models(v.platforms@)) {
            decimal(v.platforms@.len()) + " World / repl=None"@
        } else {
            decimal(v.platforms@.len()) + " World"@
        },
        InspectorCategory::Other => decimal(v.other@.len()) + " World"@,
        InspectorCategory::Players => known_and_world_spec(
            count_known(models(v.players@)),
            count_world(models(v.players@)),
        ),
        InspectorCategory::Interactables => known_and_world_spec(
            count_replica(models(v.interactables@)),
            count_world(models(v.interactables@)),
        ),
        InspectorCategory::Portals => known_and_world_spec(
            count_replica(models(v.portals@)),
            count_world(models(v.portals@)),
        ),
    }
}

proof fn lemma_count_bounded(s: Seq<RowModel>)
    ensures
        count_known(s) <= s.len(),
        count_replica(s) <= s.len(),
        count_world(s) <= s.len(),
    decreases s.len(),
{
    if s.len() > 0 {
        lemma_count_bounded(s.drop_last());
    }
}

fn count_rows_known(rows: &Vec<InspectorRow>) -> (c: usize)
    ensures
        c == count_known(models(rows@)),
{
    let mut c: usize = 0;
    let mut i: usize = 0;
    while i < rows.len()
        invariant
            i <= rows@.len(),
            c == count_known(models(rows@).take(i as int)),
            c <= i,
        decreases rows@.len() - i,
    {
        assert(models(rows@).take(i + 1).drop_last() =~= models(rows@).take(i as int));
        if rows[i].server_runtime_entity_id.is_some() {
            c = c + 1;
        }
        i = i + 1;
    }
    assert(models(rows@).take(i as int) =~= models(rows@));
    c
}

fn count_rows_replica(rows: &Vec<InspectorRow>) -> (c: usize)
    ensures
        c == count_replica(models(rows@)),
{
    let mut c: usize = 0;
    let mut i: usize = 0;
    while i < rows.len()
        invariant
            i <= rows@.len(),
            c == count_replica(models(rows@).take(i as int)),
            c <= i,
        decreases rows@.len() - i,
    {
        assert(models(rows@).take(i + 1).drop_last() =~= models(rows@).take(i as int));
        if rows[i].source == InspectorSource::Replica {
            c = c + 1;
        }
        i = i + 1;
    }
    assert(models(rows@).take(i as int) =~= models(rows@));
    c
}

fn count_rows_world(rows: &Vec<InspectorRow>) -> (c: usize)
    ensures
        c == count_world(models(rows@)),
{
    let mut c: usize = 0;
    let mut i: usize = 0;
    while i < rows.len()
        invariant
            i <= rows@.len(),
            c == count_world(models(rows@).take(i as int)),
            c <= i,
        decreases rows@.len() - i,
    {
        assert(models(rows@).take(i + 1).drop_last() =~= models(rows@).take(i as int));
        if rows[i].client_world_entity_id.is_some() || rows[i].source == InspectorSource::World {
            c = c + 1;
        }
        i = i + 1;
    }
    assert(models(rows@).take(i as int) =~= models(rows@));
    c
}

fn rows_all_class_none(rows: &Vec<InspectorRow>) -> (b: bool)
    ensures
        b == all_class_none(models(rows@)),
{
    let mut i: usize = 0;
    while i < rows.len()
        invariant
            i <= rows@.len(),
            forall|k: int| 0 <= k < i ==> contains_seq(#[trigger] models(rows@)[k].replication_line, "class=None"@),
        decreases rows@.len() - i,
    {
        if !contains_str(rows[i].replication_line.as_str(), "class=None") {
            assert(models(rows@)[i as int] == rows@[i as int]@);
            assert(!contains_seq(models(rows@)[i as int].replication_line, "class=None"@));
            return false;
        }
        assert(models(rows@)[i as int] == rows@[i as int]@);
        i = i + 1;
    }
    true
}

impl InspectorView {
    pub fn category_section_id(category: InspectorCategory) -> (s: &'static str)
        ensures
            s@ == (match category {
                InspectorCategory::Players => "world.entities.players"@,
                InspectorCategory::Interactables => "world.entities.interactables"@,
                InspectorCategory::Portals => "world.entities.portals"@,
                InspectorCategory::Platforms => "world.entities.platforms"@,
                InspectorCategory::Other => "world.entities.other"@,
            }),
    {
        match category {
            InspectorCategory::Players => "world.entities.players",
            InspectorCategory::Interactables => "world.entities.interactables",
            InspectorCategory::Portals => "world.entities.portals",
            InspectorCategory::Platforms => "world.entities.platforms",
            InspectorCategory::Other => "world.entities.other",
        }
    }

    pub fn players_local_section_id() -> (s: &'static str)
        ensures
            s@ == "world.entities.players.local"@,
    {
        "world.entities.players.local"
    }

    pub fn players_remote_section_id() -> (s: &'static str)
        ensures
            s@ == "world.entities.players.remote"@,
    {
        "world.entities.players.remote"
    }

    /// Gameplay categories start expanded; platforms and other collapsed.
    pub fn category_default_open(category: InspectorCategory) -> (b: bool)
        ensures
            b == !(category == InspectorCategory::Platforms || category
                == InspectorCategory::Other),
    {
        match category {
            InspectorCategory::Platforms | InspectorCategory::Other => false,
            _ => true,
        }
    }

    /// Player rows that carry a server Known-set id.
    pub fn known_players(&self) -> (c: usize)
        ensures
            c == count_known(models(self.players@)),
    {
        count_rows_known(&self.players)
    }

    pub fn known_interactables(&self) -> (c: usize)
        ensures
            c == count_replica(models(self.interactables@)),
    {
        count_rows_replica(&self.interactables)
    }

    pub fn known_portals(&self) -> (c: usize)
        ensures
            c == count_replica(models(self.portals@)),
    {
        count_rows_replica(&self.portals)
    }

    /// Rows of `category` that carry a client `World` slot.
    pub fn world_count(&self, category: InspectorCategory) -> (c: usize)
        ensures
            c == count_world(models(category_rows(*self, category))),
    {
        match category {
            InspectorCategory::Players => count_rows_world(&self.players),
            InspectorCategory::Interactables => count_rows_world(&self.interactables),
            InspectorCategory::Portals => count_rows_world(&self.portals),
            InspectorCategory::Platforms => count_rows_world(&self.platforms),
            InspectorCategory::Other => count_rows_world(&self.other),
        }
    }

    pub fn world_platforms(&self) -> (c: usize)
        ensures
            c == self.platforms@.len(),
    {
        self.platforms.len()
    }

    pub fn rows(&self, category: InspectorCategory) -> (r: &[InspectorRow])
        ensures
            r@ == category_rows(*self, category),
    {
        match category {
            InspectorCategory::Players => self.players.as_slice(),
            InspectorCategory::Interactables => self.interactables.as_slice(),
            InspectorCategory::Portals => self.portals.as_slice(),
            InspectorCategory::Platforms => self.platforms.as_slice(),
            InspectorCategory::Other => self.other.as_slice(),
        }
    }

    pub fn category_summary(&self, category: InspectorCategory) -> (s: String)
        ensures
            s@ == category_summary_spec(*self, category),
    {
        match category {
            InspectorCategory::Platforms => {
                let mut s = String::new();
                append_decimal(&mut s, self.platforms.len() as u64);
                if rows_all_class_none(&self.platforms) {
                    append_str(&mut s, " World / repl=None");
                } else {
                    append_str(&mut s, " World");
                }
                s
            },
            InspectorCategory::Other => {
                let mut s = String::new();
                append_decimal(&mut s, self.other.len() as u64);
                append_str(&mut s, " World");
                s
            },
            InspectorCategory::Players => known_and_world(
                self.known_players(),
                self.world_count(InspectorCategory::Players),
            ),
            InspectorCategory::Interactables => known_and_world(
                self.known_interactables(),
                self.world_count(InspectorCategory::Interactables),
            ),
            InspectorCategory::Portals => known_and_world(
                self.known_portals(),
                self.world_count(InspectorCategory::Portals),
            ),
        }
    }

    /// `"Players {} · Interactables {} · Portals {} · Platforms {}"`.
    pub fn entities_header_summary(&self) -> (s: String)
        ensures
            s@ == "Players "@ + category_summary_spec(*self, InspectorCategory::Players)
                + " · Interactables "@ + category_summary_spec(
                *self,
                InspectorCategory::Interactables,
            ) + " · Portals "@ + category_summary_spec(*self, InspectorCategory::Portals)
                + " · Platforms "@ + category_summary_spec(*self, InspectorCategory::Platforms),
    {
        let mut s = owned("Players ");
        let p = self.category_summary(InspectorCategory::Players);
        append_str(&mut s, p.as_str());
        append_str(&mut s, " · Interactables ");
        let i = self.category_summary(InspectorCategory::Interactables);
        append_str(&mut s, i.as_str());
        append_str(&mut s, " · Portals ");
        let o = self.category_summary(InspectorCategory::Portals);
        append_str(&mut s, o.as_str());
        append_str(&mut s, " · Platforms ");
        let l = self.category_summary(InspectorCategory::Platforms);
        append_str(&mut s, l.as_str());
        s
    }
}

/// Replica entries with role `role`.
pub open spec fn count_role(rs: Seq<ReplicaRowInput>, role: ReplicaRole) -> nat
    decreases rs.len(),
{
    if rs.len() == 0 {
        0
    } else {
        count_role(rs.drop_last(), role) + if rs.last().role == role {
            1nat
        } else {
            0nat
        }
    }
}

proof fn lemma_count_known_concat(a: Seq<RowModel>, b: Seq<RowModel>)
    ensures
        count_known(a + b) == count_known(a) + count_known(b),
    decreases b.len(),
{
    if b.len() > 0 {
        lemma_count_known_concat(a, b.drop_last());
        assert((a + b).drop_last() =~= a + b.drop_last());
    } else {
        assert(a + b =~= a);
    }
}

proof fn lemma_count_known_insert_sorted(s: Seq<RowModel>, x: RowModel)
    ensures
        count_known(insert_sorted(s, x)) == count_known(s) + if x.server_id is Some {
            1nat
        } else {
            0nat
        },
    decreases s.len(),
{
    if s.len() == 0 {
        assert(seq![x].drop_last() =~= Seq::<RowModel>::empty());
        assert(count_known(Seq::<RowModel>::empty()) == 0);
        assert(insert_sorted(s, x) == seq![x]);
        assert(seq![x].last() == x);
    } else if key_le(key_spec(s.last()), key_spec(x)) {
        assert(s.push(x).drop_last() =~= s);
        assert(insert_sorted(s, x) == s.push(x));
    } else {
        lemma_count_known_insert_sorted(s.drop_last(), x);
        let t = insert_sorted(s.drop_last(), x);
        assert(t.push(s.last()).drop_last() =~= t);
        assert(insert_sorted(s, x) == t.push(s.last()));
        assert(count_known(t.push(s.last())) == count_known(t) + if s.last().server_id is Some {
            1nat
        } else {
            0nat
        });
    }
}

proof fn lemma_count_known_sorted(s: Seq<RowModel>)
    ensures
        count_known(sort_spec(s)) == count_known(s),
    decreases s.len(),
{
    if s.len() > 0 {
        lemma_count_known_sorted(s.drop_last());
        lemma_count_known_insert_sorted(sort_spec(s.drop_last()), s.last());
    }
}

proof fn lemma_world_rows_unknown(es: Seq<WorldEntityInput>, local: Option<EntityId>, cat: InspectorCategory)
    ensures
        count_known(world_rows_in(es, local, cat)) == 0,
    decreases es.len(),
{
    if es.len() > 0 {
        lemma_world_rows_unknown(es.drop_last(), local, cat);
        let rest = world_rows_in(es.drop_last(), local, cat);
        let e = es.last();
        if !is_local_world(e, local) && world_category_spec(e.kind, e.interactable) == cat {
            assert(rest.push(world_row_spec(e, local)).drop_last() =~= rest);
        }
    }
}

proof fn lemma_replica_rows_known(rs: Seq<ReplicaRowInput>, role: ReplicaRole)
    ensures
        count_known(replica_rows_in(rs, role)) == count_role(rs, role),
    decreases rs.len(),
{
    if rs.len() > 0 {
        lemma_replica_rows_known(rs.drop_last(), role);
        let rest = replica_rows_in(rs.drop_last(), role);
        if rs.last().role == role {
            assert(rest.push(replica_row_spec(rs.last())).drop_last() =~= rest);
        }
    }
}

proof fn lemma_local_replica_row_known(rs: Seq<ReplicaRowInput>)
    ensures
        local_replica_row(rs) is Some ==> local_replica_row(rs)->0.server_id is Some,
    decreases rs.len(),
{
    if rs.len() > 0 {
        lemma_local_replica_row_known(rs.drop_last());
    }
}

/// Known players counts the remote-player replicas, plus one when the
/// replica knows the local player: world player rows never count as Known,
/// and the merged local row counts once.
pub proof fn lemma_known_players_count(
    es: Seq<WorldEntityInput>,
    local: Option<EntityId>,
    rs: Seq<ReplicaRowInput>,
)
    ensures
        count_known(build_players(es, local, rs)) == count_role(rs, ReplicaRole::RemotePlayer) + if local_replica_row(rs) is Some {
            1nat
        } else {
            0nat
        },
{
    let w = world_rows_in(es, local, InspectorCategory::Players);
    let r = replica_rows_in(rs, ReplicaRole::RemotePlayer);
    let l = local_rows(es, local, rs);
    lemma_count_known_sorted(w + r + l);
    lemma_count_known_concat(w + r, l);
    lemma_count_known_concat(w, r);
    lemma_world_rows_unknown(es, local, InspectorCategory::Players);
    lemma_replica_rows_known(rs, ReplicaRole::RemotePlayer);
    lemma_local_replica_row_known(rs);
    let lw = local_world_row(es, local);
    let lr = local_replica_row(rs);
    if lw is Some || lr is Some {
        assert(l == seq![merge_local_spec(lw, lr)]);
        assert(l.drop_last() =~= Seq::<RowModel>::empty());
        assert(count_known(Seq::<RowModel>::empty()) == 0);
        assert(count_known(l) == if lr is Some { 1nat } else { 0nat });
    } else {
        assert(l =~= Seq::<RowModel>::empty());
        assert(count_known(l) == 0);
    }
    assert(build_players(es, local, rs) == sort_spec(w + r + l));
}

proof fn lemma_replica_rows_contain(rs: Seq<ReplicaRowInput>, role: ReplicaRole, i: int)
    requires
        0 <= i < rs.len(),
        rs[i].role == role,
    ensures
        replica_rows_in(rs, role).contains(replica_row_spec(rs[i])),
    decreases rs.len(),
{
    let rest = replica_rows_in(rs.drop_last(), role);
    if i == rs.len() - 1 {
        let out = rest.push(replica_row_spec(rs.last()));
        assert(out[out.len() - 1] == replica_row_spec(rs[i]));
    } else {
        lemma_replica_rows_contain(rs.drop_last(), role, i);
        assert(rs.drop_last()[i] == rs[i]);
        let j = choose|j: int| 0 <= j < rest.len() && rest[j] == replica_row_spec(rs[i]);
        if rs.last().role == role {
            assert(rest.push(replica_row_spec(rs.last()))[j] == rest[j]);
        }
    }
}

proof fn lemma_sorted_contains(u: Seq<RowModel>, x: RowModel)
    requires
        u.contains(x),
    ensures
        sort_spec(u).contains(x),
{
    broadcast use vstd::seq_lib::group_to_multiset_ensures;

    lemma_sort_spec_sorted_permutation(u);
    assert(u.to_multiset().count(x) > 0);
    assert(sort_spec(u).to_multiset().count(x) > 0);
}

proof fn lemma_concat_contains(a: Seq<RowModel>, b: Seq<RowModel>, x: RowModel)
    requires
        a.contains(x) || b.contains(x),
    ensures
        (a + b).contains(x),
{
    if a.contains(x) {
        let j = choose|j: int| 0 <= j < a.len() && a[j] == x;
        assert((a + b)[j] == x);
    } else {
        let j = choose|j: int| 0 <= j < b.len() && b[j] == x;
        assert((a + b)[a.len() + j] == x);
    }
}

/// Every Known replica is listed: a remote player under Players, an
/// interactable under Interactables, a portal under Portals and an NPC
/// under Other, each as its replica row.
pub proof fn lemma_every_replica_is_listed(
    es: Seq<WorldEntityInput>,
    local: Option<EntityId>,
    rs: Seq<ReplicaRowInput>,
    i: int,
)
    requires
        0 <= i < rs.len(),
        rs[i].role != ReplicaRole::LocalPlayer,
    ensures
        build_category(
            es,
            local,
            rs,
            match rs[i].role {
                ReplicaRole::RemotePlayer => InspectorCategory::Players,
                ReplicaRole::Interactable => InspectorCategory::Interactables,
                ReplicaRole::Portal => InspectorCategory::Portals,
                _ => InspectorCategory::Other,
            },
        ).contains(replica_row_spec(rs[i])),
{
    let role = rs[i].role;
    let x = replica_row_spec(rs[i]);
    lemma_replica_rows_contain(rs, role, i);
    let r = replica_rows_in(rs, role);
    match role {
        ReplicaRole::RemotePlayer => {
            let w = world_rows_in(es, local, InspectorCategory::Players);
            lemma_concat_contains(w, r, x);
            lemma_concat_contains(w + r, local_rows(es, local, rs), x);
            lemma_sorted_contains(w + r + local_rows(es, local, rs), x);
        },
        ReplicaRole::Interactable => {
            let w = world_rows_in(es, local, InspectorCategory::Interactables);
            lemma_concat_contains(w, r, x);
            lemma_sorted_contains(w + r, x);
        },
        ReplicaRole::Portal => {
            let w = world_rows_in(es, local, InspectorCategory::Portals);
            lemma_concat_contains(w, r, x);
            lemma_sorted_contains(w + r, x);
        },
        _ => {
            let w = world_rows_in(es, local, InspectorCategory::Other);
            lemma_concat_contains(w, r, x);
            lemma_sorted_contains(w + r, x);
        },
    }
}

} // verus!
