//! A plain-value stand-in for the host engine's entity identifier.
//! The host's identifier packs an index and a generation counter; the
//! editor only ever reads those two numbers, so it carries them as two
//! integers of its own.

use vstd::prelude::*;

verus! {

/// Identifier of a live entity: the slot index and the generation
/// counter of that slot, as the host engine reports them.
#[derive(PartialEq, Eq, Structural, Clone, Copy, Debug, Hash)]
pub struct EntityId {
    pub index: u32,
    pub generation: u32,
}

impl EntityId {
    /// Builds an identifier from the two numbers the host reports.
    pub fn new(index: u32, generation: u32) -> (r: EntityId)
        ensures
            r.index == index,
            r.generation == generation,
    {
        EntityId { index, generation }
    }
}

} // verus!
