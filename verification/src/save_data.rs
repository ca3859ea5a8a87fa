//! What is stored with the player's save.

use std::collections::HashSet;

use vstd::prelude::*;

verus! {

broadcast use vstd::std_specs::hash::group_hash_axioms;

/// Archipelago's part of a save.
pub struct SaveData {
    /// The number of items that were granted out of those that the server sent.
    pub items_granted: usize,
    /// The locations that the player has checked.
    pub locations: HashSet<i64>,
    /// The seed that this save is played with, once it is known.
    pub seed: Option<String>,
    /// The virtual locations whose item was granted to this player.
    pub local_virtual_items_granted: HashSet<i64>,
    /// The virtual locations whose item was shown to be sent to another player.
    pub foreign_virtual_items_notified: HashSet<i64>,
}

impl SaveData {
    /// Whether this is the data of a new file: nothing is granted, checked, shown or
    /// known yet.
    pub open spec fn is_fresh(self) -> bool {
        &&& self.items_granted == 0
        &&& self.locations@ == Set::<i64>::empty()
        &&& self.seed is None
        &&& self.local_virtual_items_granted@ == Set::<i64>::empty()
        &&& self.foreign_virtual_items_notified@ == Set::<i64>::empty()
    }

    /// Creates the data of a new file.
    pub fn new() -> (data: SaveData)
        ensures
            data.is_fresh(),
    {
        SaveData {
            items_granted: 0,
            locations: HashSet::new(),
            seed: None,
            local_virtual_items_granted: HashSet::new(),
            foreign_virtual_items_notified: HashSet::new(),
        }
    }

    /// Whether the two differ in nothing but their locations.
    pub open spec fn same_but_locations(self, other: SaveData) -> bool {
        &&& self.items_granted == other.items_granted
        &&& self.seed == other.seed
        &&& self.local_virtual_items_granted == other.local_virtual_items_granted
        &&& self.foreign_virtual_items_notified == other.foreign_virtual_items_notified
    }
}

/// Whether `after` is `before` with `added` noted as checked locations. Without
/// save data there is nothing to note them in.
pub open spec fn locations_added(
    before: Option<SaveData>,
    after: Option<SaveData>,
    added: Set<i64>,
) -> bool {
    match (before, after) {
        (Some(b), Some(a)) => a.same_but_locations(b) && a.locations@ == b.locations@.union(added),
        (None, None) => true,
        _ => false,
    }
}

/// Locations that are noted one set after the other are noted in all.
pub proof fn lemma_locations_added_twice(
    before: Option<SaveData>,
    between: Option<SaveData>,
    after: Option<SaveData>,
    first: Set<i64>,
    second: Set<i64>,
)
    requires
        locations_added(before, between, first),
        locations_added(between, after, second),
    ensures
        locations_added(before, after, first.union(second)),
{
    if let (Some(b), Some(a)) = (before, after) {
        assert(a.locations@ =~= b.locations@.union(first.union(second)));
    }
}

} // verus!
