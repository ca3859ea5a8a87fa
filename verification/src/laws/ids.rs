//! Item IDs, the inventory and the tables.

use vstd::prelude::*;

use crate::inventory::{has_goods_in_inventory, InventoryEntry};
use crate::item_id::{
    foreign_display_item_id, goods_item_id, ItemCategory, ItemId, ItemIdError, ItemIdExt,
};
use crate::region_lock::{
    companion_goods_for_er_lock_id, companion_region_lock_goods, goods_item_ids,
};
use crate::slot_data::DeserializableItemId;

verus! {

/// A number is an item ID exactly if its top four bits are 0, 1, 2, 4 or 8, and the ID
/// keeps the number. Any other number is refused with its top four bits.
pub proof fn law_item_ids_are_coded(value: u32, id: Result<ItemId, ItemIdError>)
    requires
        call_ensures(ItemId::try_from, (value,), id),
    ensures
        id is Ok <==> value < 0x3000_0000 || 0x4000_0000 <= value < 0x5000_0000 || 0x8000_0000
            <= value < 0x9000_0000,
        id matches Ok(i) ==> i@ == value,
        id matches Err(ItemIdError::InvalidCategory(code)) ==> code * 0x1000_0000 <= value
            && value < (code + 1) * 0x1000_0000,
{
    broadcast use ItemId::lemma_view_of_from_raw;

}

/// Item IDs in slot data are read as any other item ID is.
pub proof fn law_slot_data_item_ids_are_coded(
    value: u32,
    id: Result<ItemId, ItemIdError>,
    wrapped: Result<DeserializableItemId, ItemIdError>,
)
    requires
        call_ensures(ItemId::try_from, (value,), id),
        call_ensures(
            <DeserializableItemId as TryFrom<u32>>::try_from,
            (value,),
            wrapped,
        ),
    ensures
        wrapped is Ok <==> id is Ok,
        wrapped matches Ok(w) ==> w.0@ == value,
        wrapped matches Err(error) ==> id == Err::<ItemId, ItemIdError>(error),
{
    broadcast use ItemId::lemma_view_of_from_raw;

}

/// The category and the parameter ID make up the number of an item ID again.
pub proof fn law_item_ids_are_taken_apart(
    id: ItemId,
    category: ItemCategory,
    param_id: u32,
    raw: u32,
)
    requires
        call_ensures(ItemId::category, (&id,), category),
        call_ensures(ItemId::param_id, (&id,), param_id),
        call_ensures(ItemId::into_inner, (id,), raw),
    ensures
        raw == id@,
        param_id < 0x1000_0000,
        raw == param_id + (match category {
            ItemCategory::Weapon => 0int,
            ItemCategory::Protector => 0x1000_0000,
            ItemCategory::Accessory => 0x2000_0000,
            ItemCategory::Goods => 0x4000_0000,
            ItemCategory::Gem => 0x8000_0000,
        }),
{
}

/// The placeholders are the goods with parameter IDs above 3,780,000.
pub proof fn law_placeholders_are_high_goods(id: ItemId, placeholder: bool)
    requires
        call_ensures(<ItemId as ItemIdExt>::is_archipelago, (&id,), placeholder),
    ensures
        placeholder <==> 0x4000_0000 + 3_780_000 < id@ < 0x5000_0000,
{
}

/// The item ID of goods is their parameter ID in the category of goods.
pub proof fn law_goods_ids_are_offset(goods_id: u32, id: ItemId)
    requires
        call_ensures(goods_item_id, (goods_id,), id),
    ensures
        id@ == 0x4000_0000 + goods_id,
{
}

/// A display item is named by a positive parameter ID of goods that are no placeholders.
/// Numbers beyond the goods name a gem where they reach into that category, and nothing
/// else.
pub proof fn law_display_items_are_named(appearance: i32, id: Option<ItemId>)
    requires
        call_ensures(foreign_display_item_id, (appearance,), id),
    ensures
        id is Some <==> 0 < appearance <= 3_780_000 || 0x4000_0000 <= appearance < 0x5000_0000,
        id matches Some(i) ==> i@ == 0x4000_0000 + appearance,
{
    broadcast use ItemId::lemma_view_of_from_raw;

}

/// An item is held exactly if some slot of a loaded inventory has a positive quantity of
/// it.
pub proof fn law_held_items_have_a_slot(
    inventory: Option<&Vec<InventoryEntry>>,
    id: ItemId,
    held: bool,
)
    requires
        call_ensures(has_goods_in_inventory, (inventory, id), held),
    ensures
        inventory is None ==> !held,
        forall|i: int|
            inventory is Some && 0 <= i < inventory->0@.len() && (
            #[trigger] inventory->0@[i]).item_id == id && inventory->0@[i].quantity >= 1 ==> held,
        (forall|i: int|
            inventory is Some && 0 <= i < inventory->0@.len() && (
            #[trigger] inventory->0@[i]).item_id == id ==> inventory->0@[i].quantity == 0) ==> !held,
{
}

/// Four items are region locks, and each comes with its goods, whichever way it is
/// named. No other name or parameter ID comes with anything.
pub proof fn law_region_locks_have_their_goods(
    name: &str,
    param_id: u32,
    by_name: Vec<u32>,
    by_param_id: Vec<u32>,
)
    requires
        call_ensures(companion_region_lock_goods, (name,), by_name),
        call_ensures(companion_goods_for_er_lock_id, (param_id,), by_param_id),
    ensures
        param_id == 60003 ==> by_param_id@ == seq![8105u32, 8106],
        param_id == 60007 ==> by_param_id@ == seq![8107u32],
        param_id == 60009 ==> by_param_id@ == seq![8175u32, 8176],
        param_id == 60010 ==> by_param_id@ == seq![2160u32],
        by_param_id@.len() > 0 ==> param_id == 60003 || param_id == 60007 || param_id == 60009
            || param_id == 60010,
        name@ == "Altus Lock"@ ==> by_name@ == seq![8105u32, 8106],
        name@ == "Mountaintops Lock"@ ==> by_name@ == seq![8107u32],
        name@ == "Consecrated Snowfield Lock"@ ==> by_name@ == seq![8175u32, 8176],
        name@ == "Mohgwyn Lock"@ ==> by_name@ == seq![2160u32],
        by_name@.len() > 0 ==> name@ == "Altus Lock"@ || name@ == "Mountaintops Lock"@ || name@
            == "Consecrated Snowfield Lock"@ || name@ == "Mohgwyn Lock"@,
{
    reveal_strlit("Altus Lock");
    reveal_strlit("Mountaintops Lock");
    reveal_strlit("Consecrated Snowfield Lock");
    reveal_strlit("Mohgwyn Lock");
    assert("Altus Lock"@.len() == 10);
    assert("Mountaintops Lock"@.len() == 17);
    assert("Consecrated Snowfield Lock"@.len() == 26);
    assert("Mohgwyn Lock"@.len() == 12);
}

/// The items of some goods are theirs one by one, in order.
pub proof fn law_goods_items_are_in_order(goods: &Vec<u32>, ids: Vec<ItemId>)
    requires
        call_ensures(goods_item_ids, (goods,), ids),
        forall|i: int| 0 <= i < goods@.len() ==> #[trigger] goods@[i] < 0x1000_0000,
    ensures
        ids@.len() == goods@.len(),
        forall|i: int| 0 <= i < goods@.len() ==> (#[trigger] ids@[i])@ == 0x4000_0000 + goods@[i],
{
    broadcast use ItemId::lemma_view_of_from_raw;

    assert forall|i: int| 0 <= i < goods@.len() implies (#[trigger] ids@[i])@ == 0x4000_0000
        + goods@[i] by {
        assert(goods@[i] < 0x1000_0000);
    }
}

} // verus!
