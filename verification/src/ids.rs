//! Entity identities and kinds shared by the debug views.

use vstd::prelude::*;

use crate::text::{append_decimal, decimal, push_char};

verus! {

/// `"{index}:{generation}"`.
pub open spec fn id_label(index: u32, generation: u32) -> Seq<char> {
    decimal(index as nat) + seq![':'] + decimal(generation as nat)
}

fn id_string(index: u32, generation: u32) -> (s: String)
    ensures
        s@ == id_label(index, generation),
{
    let mut s = String::new();
    append_decimal(&mut s, index as u64);
    push_char(&mut s, ':');
    append_decimal(&mut s, generation as u64);
    assert(s@ =~= id_label(index, generation));
    s
}

/// Server runtime entity id as carried on the wire.
#[derive(Clone, Copy, Debug, PartialEq, Eq, Structural)]
pub struct WireEntityId {
    pub index: u32,
    pub generation: u32,
}

impl WireEntityId {
    pub fn label(self) -> (s: String)
        ensures
            s@ == id_label(self.index, self.generation),
    {
        id_string(self.index, self.generation)
    }
}

/// Client-local `World` slot id. A different namespace from [`WireEntityId`].
#[derive(Clone, Copy, Debug, PartialEq, Eq, Structural)]
pub struct EntityId {
    pub index: u32,
    pub generation: u32,
}

impl EntityId {
    pub fn from_raw(index: u32, generation: u32) -> (id: Self)
        ensures
            id.index == index && id.generation == generation,
    {
        EntityId { index, generation }
    }

    pub fn label(self) -> (s: String)
        ensures
            s@ == id_label(self.index, self.generation),
    {
        id_string(self.index, self.generation)
    }
}

/// Kind of a replicated entity.
#[derive(Clone, Copy, Debug, PartialEq, Eq, Structural)]
pub enum ReplicatedKind {
    Player,
    Interactable,
    Portal,
    Npc,
}

/// Kind of a client `World` entity.
#[derive(Clone, Copy, Debug, PartialEq, Eq, Structural)]
pub enum EntityKind {
    Player,
    Platform,
    Generic,
}

/// Interaction capability of a `World` entity.
#[derive(Clone, Copy, Debug, PartialEq, Eq, Structural)]
pub enum InteractableKind {
    Chest,
    Portal,
}

} // verus!
