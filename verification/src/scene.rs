//! The per-frame mirror of the host's live entity store. Each frame the
//! host hands over every live entity with its optional debug name; the
//! editor rebuilds from that its displayable list of (identifier, label)
//! pairs.

use vstd::prelude::*;

use crate::entity_id::EntityId;
use crate::label::entity_label;
use crate::label::fallback_label;

verus! {

/// One live entity as the host reports it: its identifier and its debug
/// name, if it carries one.
pub struct LiveEntity {
    pub id: EntityId,
    pub name: Option<String>,
}

impl LiveEntity {
    /// The label under which this entity is listed: its debug name where
    /// it has one, the identifier-based fallback where it has none.
    pub open spec fn label(self) -> Seq<char> {
        match self.name {
            Some(n) => n@,
            None => fallback_label(self.id),
        }
    }
}

/// One row of the displayable entity list.
pub struct SceneEntry {
    pub id: EntityId,
    pub label: String,
}

/// A list entry mirrors one live entity: same identifier, and the
/// entity's display label.
pub open spec fn entry_shows(entry: SceneEntry, e: LiveEntity) -> bool {
    &&& entry.id == e.id
    &&& entry.label@ == e.label()
}

/// The displayable entity list, rebuilt each frame from the host's live
/// entity store.
pub struct SceneEntities(pub Vec<SceneEntry>);

impl Default for SceneEntities {
    /// An editor starts with no entities listed.
    fn default() -> (r: SceneEntities)
        ensures
            r.0@.len() == 0,
    {
        SceneEntities(Vec::new())
    }
}

/// Rebuilds the displayable entity list from the live entities of this
/// frame. Whatever the list held before is discarded; afterwards it has
/// one entry per live entity, in the host's order, each under its
/// display label.
pub fn update_scene_entities(scene: &mut SceneEntities, live: &Vec<LiveEntity>)
    ensures
        final(scene).0@.len() == live@.len(),
        forall|i: int| #![trigger final(scene).0@[i]]
            0 <= i < live@.len() ==> entry_shows(final(scene).0@[i], live@[i]),
{
    scene.0.clear();
    let mut i: usize = 0;
    while i < live.len()
        invariant
            i <= live@.len(),
            scene.0@.len() == i,
            forall|j: int| #![trigger scene.0@[j]]
                0 <= j < i ==> entry_shows(scene.0@[j], live@[j]),
        decreases live@.len() - i,
    {
        let e = &live[i];
        let name = match &e.name {
            Some(n) => Some(n.as_str()),
            None => None,
        };
        let label = entity_label(name, e.id);
        let ghost pre = scene.0@;
        scene.0.push(SceneEntry { id: e.id, label });
        proof {
            assert(forall|j: int| 0 <= j < i ==> scene.0@[j] == pre[j]);
        }
        i += 1;
    }
}

} // verus!
