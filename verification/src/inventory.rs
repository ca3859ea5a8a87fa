//! The player's inventory, as far as it is read.

use vstd::prelude::*;

use crate::item_id::ItemId;

verus! {

/// One slot of the player's inventory.
#[derive(Clone, Copy, Debug, PartialEq, Eq, Structural)]
pub struct InventoryEntry {
    /// The item in the slot.
    pub item_id: ItemId,
    /// How many of it the slot holds.
    pub quantity: u32,
}

/// Whether a slot among `entries` holds at least one of the item `id`.
pub open spec fn holds_item(entries: Seq<InventoryEntry>, id: ItemId) -> bool {
    exists|i: int|
        0 <= i < entries.len() && (#[trigger] entries[i]).item_id == id && entries[i].quantity > 0
}

/// Whether the inventory, where it can be read at all, holds the item `id`.
pub open spec fn inventory_holds(inventory: Option<&Vec<InventoryEntry>>, id: ItemId) -> bool {
    inventory matches Some(entries) && holds_item(entries@, id)
}

/// Returns whether the player's inventory holds at least one of the given item.
/// An inventory that is not loaded holds nothing.
pub fn has_goods_in_inventory(
    inventory: Option<&Vec<InventoryEntry>>,
    item_id: ItemId,
) -> (held: bool)
    ensures
        held == inventory_holds(inventory, item_id),
{
    let Some(entries) = inventory else {
        return false;
    };
    let mut index: usize = 0;
    while index < entries.len()
        invariant
            index <= entries@.len(),
            inventory == Some(entries),
            forall|i: int|
                0 <= i < index ==> (#[trigger] entries@[i]).item_id != item_id
                    || entries@[i].quantity == 0,
        decreases entries@.len() - index,
    {
        if entries[index].item_id == item_id && entries[index].quantity > 0 {
            return true;
        }
        index = index + 1;
    }
    false
}

} // verus!
