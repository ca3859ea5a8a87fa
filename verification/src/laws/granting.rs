//! Placeholder items.

use vstd::prelude::*;

use crate::display::ItemGetDisplay;
use crate::item::{
    all_grant_effects, entry_ids, grant_effects, granted_as, granted_items, lemma_grant_step,
    on_grant_items,
    placeholder_locations, read_placeholder, remove_queued_display_items,
    should_show_item_get_dialog, show_virtual_location_display_item, stands_for, DisplayEffect,
    DisplayItemQueue, EquipParam, EquipParamExt, GoodsRow, ItemBufferEntry, PlaceholderError,
    RegulationManager,
};
use crate::item_id::ItemId;
use crate::save_data::SaveData;

verus! {

/// The location that a row stands for is made of its two halves.
pub proof fn law_locations_are_made_of_halves(row: GoodsRow, location_id: i64)
    requires
        call_ensures(<GoodsRow as EquipParamExt>::archipelago_location_id, (&row,), location_id),
    ensures
        location_id == row.vagrant_item_lot_id + 0x1_0000_0000
            * row.vagrant_bonus_ene_drop_item_lot_id,
{
}

/// A row whose price has the bits of `raw` and whose sell value has those of `quantity`
/// stands for that many of the item with that number, whatever its category. Only a
/// price of zero means that it stands for no local item.
pub proof fn law_rows_encode_items(
    row: GoodsRow,
    raw: u32,
    quantity: u32,
    item: Option<(ItemId, u32)>,
)
    requires
        call_ensures(<GoodsRow as EquipParamExt>::archipelago_item, (&row,), item),
        row.basic_price == raw || row.basic_price == raw - 0x1_0000_0000,
        row.sell_value == quantity || row.sell_value == quantity - 0x1_0000_0000,
    ensures
        item is None <==> raw == 0,
        item matches Some((id, count)) ==> id@ == raw && count == quantity,
{
    broadcast use ItemId::lemma_view_of_from_raw;

}

/// Every location in range can be read out of a row, and every row without a price or
/// with the number of an item as its price can be read for its item.
pub proof fn law_rows_can_be_read(row: GoodsRow)
    ensures
        -0x8000_0000_0000_0000 <= row.vagrant_item_lot_id + 0x1_0000_0000
            * row.vagrant_bonus_ene_drop_item_lot_id ==> call_requires(
            <GoodsRow as EquipParamExt>::archipelago_location_id,
            (&row,),
        ),
        row.basic_price < -0x7000_0000 || 0 <= row.basic_price < 0x3000_0000 || 0x4000_0000
            <= row.basic_price < 0x5000_0000 ==> call_requires(
            <GoodsRow as EquipParamExt>::archipelago_item,
            (&row,),
        ),
{
}

/// What a buffer of one item is granted as. Vanilla items stay as they are. A placeholder
/// for a local item becomes that item, and keeps only its gem. A foreign one becomes one
/// of its display item, and is dropped where it has none; without a save it stays.
pub proof fn law_one_item_is_granted(
    items: &mut Vec<ItemBufferEntry>,
    regulation: &RegulationManager,
    save_data: &mut Option<SaveData>,
    effects: Vec<DisplayEffect>,
    row: GoodsRow,
)
    requires
        call_ensures(on_grant_items, (items, regulation, save_data), effects),
        old(items)@.len() == 1,
        0x4000_0000 + 3_780_000 < old(items)@[0].id@ < 0x5000_0000
            ==> regulation.rows@.contains_pair(old(items)@[0].id@, EquipParam::Goods(row))
            && -0x8000_0000_0000_0000 <= row.vagrant_item_lot_id + 0x1_0000_0000
            * row.vagrant_bonus_ene_drop_item_lot_id && (row.basic_price < -0x7000_0000 || 0
            <= row.basic_price < 0x3000_0000 || 0x4000_0000 <= row.basic_price < 0x5000_0000),
    ensures
        ({
            let entry = old(items)@[0];
            let after = final(items)@;
            let appearance = row.appearance_replace_item_id;
            if !(0x4000_0000 + 3_780_000 < entry.id@ < 0x5000_0000) {
                after == seq![entry] && effects@.len() == 0
            } else if row.basic_price != 0 {
                &&& effects@.len() == 0
                &&& after.len() == 1
                &&& after[0].id@ == row.basic_price || after[0].id@ == row.basic_price
                    + 0x1_0000_0000
                &&& after[0].quantity == row.sell_value || after[0].quantity == row.sell_value
                    + 0x1_0000_0000
                &&& after[0].durability == u32::MAX
                &&& after[0].gem == entry.gem
            } else if (*old(save_data)) is None {
                after == seq![entry] && effects@.len() == 0
            } else if 0 < appearance <= 3_780_000 || 0x4000_0000 <= appearance < 0x5000_0000 {
                &&& after.len() == 1
                &&& after[0].id@ == 0x4000_0000 + appearance
                &&& after[0].quantity == 1
                &&& after[0].durability == u32::MAX
                &&& after[0].gem == u32::MAX
                &&& effects@.len() == 2
                &&& effects@[0] matches DisplayEffect::SetDisplay(id, display) && id
                    == after[0].id && display.show_log && (display.show_dialog == 2
                    || display.show_dialog == 0) && (display.show_dialog == 2 <==> exists|
                    goods: GoodsRow,
                | #[trigger]
                    regulation.rows@.contains_pair(after[0].id@, EquipParam::Goods(goods)) && (
                    goods.icon_id == 15363 || goods.icon_id == 15333))
                &&& effects@[1] == DisplayEffect::QueueCleanup(after[0].id)
            } else {
                after.len() == 0 && effects@.len() == 0
            }
        }),
{
    broadcast use {ItemId::lemma_from_raw_of_view, ItemId::lemma_view_of_from_raw};

    let before = old(items)@;
    let loaded = (*old(save_data)) is Some;
    lemma_grant_step(regulation, loaded, before, 0);
    assert(before.take(0) =~= Seq::empty());
    assert(before.take(1) =~= before);
    assert(granted_items(regulation, loaded, before.take(0)) =~= Seq::empty());
    assert(all_grant_effects(regulation, loaded, before.take(0)) =~= Seq::empty());
    assert(before =~= seq![before[0]]);
    let granted = granted_as(regulation, loaded, before[0]);
    assert(granted is Some ==> final(items)@ =~= seq![granted->0]);
    assert(granted is None ==> final(items)@ =~= Seq::empty());
    assert(effects@ =~= grant_effects(regulation, loaded, before[0]));
    let shown = (0x4000_0000 + row.appearance_replace_item_id) as u32;
    if regulation.goods(shown) is Some {
        assert(regulation.rows@.contains_pair(
            shown,
            EquipParam::Goods(regulation.goods(shown)->0),
        ));
    }
}

/// Buffers are granted piece by piece: what two of them are granted as, one after the
/// other, is what they are granted as together.
pub proof fn law_buffers_are_granted_piece_by_piece(
    first: &mut Vec<ItemBufferEntry>,
    second: &mut Vec<ItemBufferEntry>,
    both: &mut Vec<ItemBufferEntry>,
    regulation: &RegulationManager,
    first_save: &mut Option<SaveData>,
    second_save: &mut Option<SaveData>,
    both_save: &mut Option<SaveData>,
    first_effects: Vec<DisplayEffect>,
    second_effects: Vec<DisplayEffect>,
    both_effects: Vec<DisplayEffect>,
)
    requires
        call_ensures(on_grant_items, (first, regulation, first_save), first_effects),
        call_ensures(on_grant_items, (second, regulation, second_save), second_effects),
        call_ensures(on_grant_items, (both, regulation, both_save), both_effects),
        old(both)@ == old(first)@ + old(second)@,
        *old(both_save) == *old(first_save),
        *old(second_save) == *final(first_save),
    ensures
        final(both)@ == final(first)@ + final(second)@,
        both_effects@ == first_effects@ + second_effects@,
        (*final(both_save)) is Some == (*final(second_save)) is Some,
        (*final(both_save)) is Some ==> (*final(both_save))->0.locations@ == (
        *final(second_save))->0.locations@,
{
    lemma_grants_compose(
        regulation,
        (*old(both_save)) is Some,
        old(first)@,
        old(second)@,
    );
    if (*final(both_save)) is Some {
        assert((*final(both_save))->0.locations@ =~= (*final(second_save))->0.locations@);
    }
}

/// What two sequences of entries are granted as together.
proof fn lemma_grants_compose(
    regulation: &RegulationManager,
    loaded: bool,
    first: Seq<ItemBufferEntry>,
    second: Seq<ItemBufferEntry>,
)
    ensures
        granted_items(regulation, loaded, first + second) == granted_items(
            regulation,
            loaded,
            first,
        ) + granted_items(regulation, loaded, second),
        all_grant_effects(regulation, loaded, first + second) == all_grant_effects(
            regulation,
            loaded,
            first,
        ) + all_grant_effects(regulation, loaded, second),
        placeholder_locations(regulation, entry_ids(first + second)) == placeholder_locations(
            regulation,
            entry_ids(first),
        ).union(placeholder_locations(regulation, entry_ids(second))),
    decreases second.len(),
{
    let both = first + second;
    if second.len() == 0 {
        assert(both =~= first);
        assert(granted_items(regulation, loaded, second) =~= Seq::empty());
        assert(all_grant_effects(regulation, loaded, second) =~= Seq::empty());
        assert(granted_items(regulation, loaded, first) + Seq::<ItemBufferEntry>::empty()
            =~= granted_items(regulation, loaded, first));
        assert(all_grant_effects(regulation, loaded, first) + Seq::<DisplayEffect>::empty()
            =~= all_grant_effects(regulation, loaded, first));
        assert(placeholder_locations(regulation, entry_ids(second)) =~= Set::empty());
        assert(placeholder_locations(regulation, entry_ids(first)).union(Set::empty())
            =~= placeholder_locations(regulation, entry_ids(first)));
    } else {
        let last = second.len() - 1;
        let rest = second.take(last);
        lemma_grants_compose(regulation, loaded, first, rest);
        lemma_grant_step(regulation, loaded, second, last);
        lemma_grant_step(regulation, loaded, both, first.len() + last);
        assert(second.take(last + 1) =~= second);
        assert(both.take(first.len() + last) =~= first + rest);
        assert(both.take(first.len() + last + 1) =~= both);
        assert(both[first.len() + last] == second[last]);
        assert(granted_items(regulation, loaded, both) =~= granted_items(regulation, loaded, first)
            + granted_items(regulation, loaded, second));
        assert(all_grant_effects(regulation, loaded, both) =~= all_grant_effects(
            regulation,
            loaded,
            first,
        ) + all_grant_effects(regulation, loaded, second));
        assert(placeholder_locations(regulation, entry_ids(both)) =~= placeholder_locations(
            regulation,
            entry_ids(first),
        ).union(placeholder_locations(regulation, entry_ids(second))));
    }
}

/// Granting notes exactly the locations of the placeholders in the buffer in the save,
/// and leaves the rest of the save as it is.
pub proof fn law_granting_notes_locations(
    items: &mut Vec<ItemBufferEntry>,
    regulation: &RegulationManager,
    save_data: &mut Option<SaveData>,
    effects: Vec<DisplayEffect>,
)
    requires
        call_ensures(on_grant_items, (items, regulation, save_data), effects),
    ensures
        (*old(save_data)) is None ==> (*final(save_data)) is None,
        (*old(save_data)) is Some ==> {
            let before = (*old(save_data))->0;
            let after = (*final(save_data))->0;
            &&& (*final(save_data)) is Some
            &&& after.items_granted == before.items_granted
            &&& after.seed == before.seed
            &&& after.local_virtual_items_granted == before.local_virtual_items_granted
            &&& after.foreign_virtual_items_notified == before.foreign_virtual_items_notified
            &&& forall|location: i64| #[trigger]
                before.locations@.contains(location) ==> after.locations@.contains(location)
            &&& forall|i: int, row: GoodsRow|
                0 <= i < old(items)@.len() && 0x4000_0000 + 3_780_000 < (
                #[trigger] old(items)@[i]).id@ < 0x5000_0000
                    && #[trigger] regulation.rows@.contains_pair(
                    old(items)@[i].id@,
                    EquipParam::Goods(row),
                ) && -0x8000_0000_0000_0000 <= row.vagrant_item_lot_id + 0x1_0000_0000
                    * row.vagrant_bonus_ene_drop_item_lot_id ==> after.locations@.contains(
                    (row.vagrant_item_lot_id + 0x1_0000_0000
                        * row.vagrant_bonus_ene_drop_item_lot_id) as i64,
                )
            &&& forall|location: i64| #[trigger]
                after.locations@.contains(location) && !before.locations@.contains(location)
                    ==> exists|i: int|
                    0 <= i < old(items)@.len() && 0x4000_0000 + 3_780_000 < (
                    #[trigger] old(items)@[i]).id@ < 0x5000_0000 && (
                    regulation.rows@.contains_key(old(items)@[i].id@) ==> (
                    regulation.rows@[old(items)@[i].id@] matches EquipParam::Goods(row) ==> location
                        == row.vagrant_item_lot_id + 0x1_0000_0000
                        * row.vagrant_bonus_ene_drop_item_lot_id))
        },
{
    if (*old(save_data)) is Some {
        let before = (*old(save_data))->0;
        let after = (*final(save_data))->0;
        let ids = entry_ids(old(items)@);
        assert forall|i: int, row: GoodsRow|
            0 <= i < old(items)@.len() && 0x4000_0000 + 3_780_000 < (#[trigger] old(items)@[i]).id@
                < 0x5000_0000 && #[trigger] regulation.rows@.contains_pair(
                old(items)@[i].id@,
                EquipParam::Goods(row),
            ) && -0x8000_0000_0000_0000 <= row.vagrant_item_lot_id + 0x1_0000_0000
                * row.vagrant_bonus_ene_drop_item_lot_id implies after.locations@.contains(
            (row.vagrant_item_lot_id + 0x1_0000_0000
                * row.vagrant_bonus_ene_drop_item_lot_id) as i64,
        ) by {
            let location = (row.vagrant_item_lot_id + 0x1_0000_0000
                * row.vagrant_bonus_ene_drop_item_lot_id) as i64;
            assert(stands_for(regulation, ids[i], location));
        }
        assert forall|location: i64| #[trigger]
            after.locations@.contains(location) && !before.locations@.contains(location) implies
            exists|i: int|
            0 <= i < old(items)@.len() && 0x4000_0000 + 3_780_000 < (#[trigger] old(items)@[i]).id@
                < 0x5000_0000 && (regulation.rows@.contains_key(old(items)@[i].id@) ==> (
            regulation.rows@[old(items)@[i].id@] matches EquipParam::Goods(row) ==> location
                == row.vagrant_item_lot_id + 0x1_0000_0000
                * row.vagrant_bonus_ene_drop_item_lot_id)) by {
            let i = choose|i: int|
                0 <= i < ids.len() && stands_for(regulation, #[trigger] ids[i], location);
            assert(old(items)@[i].id == ids[i]);
        }
    }
}

/// The pickup of a display item shows a dialog exactly if its row is in the goods table
/// and has one of two icons.
pub proof fn law_icons_decide_on_the_dialog(
    regulation: &RegulationManager,
    id: ItemId,
    show: bool,
)
    requires
        call_ensures(should_show_item_get_dialog, (regulation, id), show),
    ensures
        show <==> exists|row: GoodsRow| #[trigger]
            regulation.rows@.contains_pair(id@, EquipParam::Goods(row)) && (row.icon_id == 15363
                || row.icon_id == 15333),
{
    if show {
        let row = regulation.goods(id@)->0;
        assert(regulation.rows@.contains_pair(id@, EquipParam::Goods(row)));
    }
}

/// The display item of a virtual location is set up, granted and queued for removal
/// where it has a row, and nothing is done where it has none.
pub proof fn law_virtual_display_items_are_shown(
    regulation: Option<&RegulationManager>,
    id: ItemId,
    show: bool,
    effects: Vec<DisplayEffect>,
)
    requires
        call_ensures(show_virtual_location_display_item, (regulation, id), effects),
        regulation is Some ==> call_ensures(
            should_show_item_get_dialog,
            (regulation->0, id),
            show,
        ),
    ensures
        regulation is Some && regulation->0.rows@.contains_key(id@) ==> effects@ == seq![
            DisplayEffect::SetDisplay(
                id,
                ItemGetDisplay {
                    show_log: true,
                    show_dialog: if show {
                        2
                    } else {
                        0
                    },
                },
            ),
            DisplayEffect::Grant(id),
            DisplayEffect::QueueCleanup(id),
        ],
        !(regulation is Some && regulation->0.rows@.contains_key(id@)) ==> effects@.len() == 0,
{
}

/// A row says what a placeholder stands for exactly if it is in the goods table, its
/// location is in range and its price is zero or the number of an item. What is wrong
/// otherwise is said of the first of these that fails.
pub proof fn law_placeholders_are_read(
    regulation: &RegulationManager,
    id: ItemId,
    result: Result<GoodsRow, PlaceholderError>,
)
    requires
        call_ensures(read_placeholder, (regulation, id), result),
    ensures
        result == Err::<GoodsRow, PlaceholderError>(PlaceholderError::NoRow)
            <==> !regulation.rows@.contains_key(id@),
        result == Err::<GoodsRow, PlaceholderError>(PlaceholderError::NotGoods)
            <==> regulation.rows@.contains_key(id@) && !(regulation.rows@[id@] is Goods),
        regulation.rows@.contains_key(id@) ==> (regulation.rows@[id@] matches EquipParam::Goods(
            row,
        ) ==> {
            let near = -0x8000_0000_0000_0000 <= row.vagrant_item_lot_id + 0x1_0000_0000
                * row.vagrant_bonus_ene_drop_item_lot_id;
            let valid = row.basic_price < -0x7000_0000 || 0 <= row.basic_price < 0x3000_0000
                || 0x4000_0000 <= row.basic_price < 0x5000_0000;
            result == (if !near {
                Err(PlaceholderError::LocationOutOfRange)
            } else if !valid {
                Err(PlaceholderError::InvalidItem(row.basic_price))
            } else {
                Ok(row)
            })
        }),
{
}

/// Display items leave the queue only to be removed, all at once, and only while the
/// game's data is loaded.
pub proof fn law_queued_items_are_removed_once(
    queue: &mut DisplayItemQueue,
    loaded: bool,
    items: Vec<ItemId>,
)
    requires
        call_ensures(remove_queued_display_items, (queue, loaded), items),
    ensures
        items@ + final(queue).items@ == old(queue).items@,
        loaded ==> final(queue).items@.len() == 0,
        !loaded ==> items@.len() == 0,
{
    assert(items@ + final(queue).items@ =~= old(queue).items@);
}

} // verus!
