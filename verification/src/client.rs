//! What is read of the connection to the Archipelago server.

use vstd::prelude::*;

use crate::slot_data::SlotData;

verus! {

/// An item that the server sent to this player.
pub struct ReceivedItem {
    /// Its place among all the items that the server sent.
    pub index: usize,
    /// The Archipelago ID of the item.
    pub item_id: i64,
    /// The name of the item.
    pub item_name: String,
    /// The ID of the location that it was found at.
    pub location_id: i64,
    /// The name of that location.
    pub location_name: String,
    /// The team of the player who found it.
    pub sender_team: u32,
    /// The slot of the player who found it.
    pub sender_slot: u32,
}

/// A connection to the Archipelago server, as it stands in one update.
pub struct Client {
    /// The seed of the connected room.
    pub seed_name: String,
    /// The team of this player.
    pub team: u32,
    /// The slot of this player.
    pub slot: u32,
    /// What the server says about this player's slot.
    pub slot_data: SlotData,
    /// The items that the server sent to this player, in order.
    pub received_items: Vec<ReceivedItem>,
}

impl Client {
    /// The Archipelago IDs of the items that the server sent.
    pub open spec fn received_ids(&self) -> Seq<i64> {
        self.received_items@.map_values(|item: ReceivedItem| item.item_id)
    }

    /// Returns the Archipelago IDs of the items that the server sent.
    pub fn received_item_ids(&self) -> (ids: Vec<i64>)
        ensures
            ids@ == self.received_ids(),
    {
        let mut ids: Vec<i64> = Vec::new();
        let mut index: usize = 0;
        while index < self.received_items.len()
            invariant
                index <= self.received_items@.len(),
                ids@ == self.received_ids().take(index as int),
            decreases self.received_items@.len() - index,
        {
            ids.push(self.received_items[index].item_id);
            index = index + 1;
        }
        ids
    }
}

} // verus!
