//! Checked locations.

use vstd::prelude::*;

use crate::client::{Client, ReceivedItem};
use crate::client_core::Core;
use crate::item::{placeholder_locations, stands_for, EquipParam, GoodsRow, RegulationManager};
use crate::item_id::ItemId;
use crate::laws::slots::{is_chain, lemma_expansion_is_chains};
use crate::locations::{
    changes_for, collect_placeholders, grant_local_virtual_location_items, inventory_changes,
    item_label, lemma_inventory_step, local_grant, location_label, names_as,
    notify_foreign_virtual_location_items, pending_grants, received_item_location_display_name,
    InventoryChange, InventoryUpdate, LocalVirtualItemGrant,
};
use crate::save_data::SaveData;
use crate::slot_data::{expanded_locations, SlotData};
use crate::text::{i64_value, integer_text, law_i64_reads_back};

verus! {

/// Whether `id` is that of a placeholder.
pub open spec fn is_placeholder_id(id: ItemId) -> bool {
    0x4000_0000 + 3_780_000 < id@ < 0x5000_0000
}

/// Whether a row can be read: its location is in range, and its price is zero or the
/// number of an item.
pub open spec fn is_readable_row(row: GoodsRow) -> bool {
    &&& -0x8000_0000_0000_0000 <= row.vagrant_item_lot_id + 0x1_0000_0000
        * row.vagrant_bonus_ene_drop_item_lot_id
    &&& row.basic_price < -0x7000_0000 || 0 <= row.basic_price < 0x3000_0000 || 0x4000_0000
        <= row.basic_price < 0x5000_0000
}

/// A placeholder in the inventory is removed, after what it stands for was given where
/// that is a local item. Any other item is left alone.
pub proof fn law_one_placeholder_is_replaced(
    ids: &Vec<ItemId>,
    regulation: &RegulationManager,
    slot_data: Option<&SlotData>,
    save_data: &mut SaveData,
    changes: Vec<InventoryChange>,
    row: GoodsRow,
)
    requires
        call_ensures(collect_placeholders, (ids, regulation, slot_data, save_data), changes),
        ids@.len() == 1,
        is_placeholder_id(ids@[0]) ==> regulation.rows@.contains_pair(
            ids@[0]@,
            EquipParam::Goods(row),
        ) && is_readable_row(row),
    ensures
        !is_placeholder_id(ids@[0]) ==> changes@.len() == 0,
        is_placeholder_id(ids@[0]) && row.basic_price == 0 ==> changes@ == seq![
            InventoryChange::RemoveOne(ids@[0]),
        ],
        is_placeholder_id(ids@[0]) && row.basic_price != 0 ==> {
            &&& changes@.len() == 2
            &&& changes@[1] == InventoryChange::RemoveOne(ids@[0])
            &&& changes@[0] matches InventoryChange::Give(id, quantity) && (id@ == row.basic_price
                || id@ == row.basic_price + 0x1_0000_0000) && (quantity == row.sell_value
                || quantity == row.sell_value + 0x1_0000_0000)
        },
{
    broadcast use ItemId::lemma_view_of_from_raw;

    lemma_inventory_step(regulation, ids@, 0);
    assert(ids@.take(0) =~= Seq::empty());
    assert(ids@.take(1) =~= ids@);
    assert(inventory_changes(regulation, ids@.take(0)) =~= Seq::empty());
    assert(changes@ =~= changes_for(regulation, ids@[0]));
}

/// The inventory is gone through item by item: the changes for two lists of items are
/// those for the first followed by those for the second.
pub proof fn law_inventories_are_replaced_piece_by_piece(
    first: &Vec<ItemId>,
    second: &Vec<ItemId>,
    both: &Vec<ItemId>,
    regulation: &RegulationManager,
    slot_data: Option<&SlotData>,
    first_save: &mut SaveData,
    second_save: &mut SaveData,
    both_save: &mut SaveData,
    first_changes: Vec<InventoryChange>,
    second_changes: Vec<InventoryChange>,
    both_changes: Vec<InventoryChange>,
)
    requires
        call_ensures(
            collect_placeholders,
            (first, regulation, slot_data, first_save),
            first_changes,
        ),
        call_ensures(
            collect_placeholders,
            (second, regulation, slot_data, second_save),
            second_changes,
        ),
        call_ensures(
            collect_placeholders,
            (both, regulation, slot_data, both_save),
            both_changes,
        ),
        both@ == first@ + second@,
    ensures
        both_changes@ == first_changes@ + second_changes@,
{
    lemma_changes_compose(regulation, first@, second@);
}

/// The changes for two lists of items together.
proof fn lemma_changes_compose(
    regulation: &RegulationManager,
    first: Seq<ItemId>,
    second: Seq<ItemId>,
)
    ensures
        inventory_changes(regulation, first + second) == inventory_changes(regulation, first)
            + inventory_changes(regulation, second),
    decreases second.len(),
{
    let both = first + second;
    if second.len() == 0 {
        assert(both =~= first);
        assert(inventory_changes(regulation, second) =~= Seq::empty());
        assert(inventory_changes(regulation, first) + Seq::<InventoryChange>::empty()
            =~= inventory_changes(regulation, first));
    } else {
        let last = second.len() - 1;
        let rest = second.take(last);
        lemma_changes_compose(regulation, first, rest);
        lemma_inventory_step(regulation, second, last);
        lemma_inventory_step(regulation, both, first.len() + last);
        assert(second.take(last + 1) =~= second);
        assert(both.take(first.len() + last) =~= first + rest);
        assert(both.take(first.len() + last + 1) =~= both);
        assert(inventory_changes(regulation, both) =~= inventory_changes(regulation, first)
            + inventory_changes(regulation, second));
    }
}

/// Without a connection the locations of the placeholders in the inventory, and no
/// others, are checked in addition. The rest of the save stays as it is.
pub proof fn law_placeholders_check_their_locations(
    ids: &Vec<ItemId>,
    regulation: &RegulationManager,
    save_data: &mut SaveData,
    changes: Vec<InventoryChange>,
    index: int,
    row: GoodsRow,
    location: i64,
)
    requires
        call_ensures(collect_placeholders, (ids, regulation, None, save_data), changes),
    ensures
        old(save_data).locations@.contains(location) ==> final(save_data).locations@.contains(
            location,
        ),
        0 <= index < ids@.len() && is_placeholder_id(ids@[index])
            && regulation.rows@.contains_pair(ids@[index]@, EquipParam::Goods(row)) && location
            == row.vagrant_item_lot_id + 0x1_0000_0000 * row.vagrant_bonus_ene_drop_item_lot_id
            ==> final(save_data).locations@.contains(location),
        final(save_data).locations@.contains(location) && !old(save_data).locations@.contains(
            location,
        ) ==> exists|i: int|
            0 <= i < ids@.len() && is_placeholder_id(#[trigger] ids@[i]) && (
            regulation.rows@.contains_key(ids@[i]@) ==> (
            regulation.rows@[ids@[i]@] matches EquipParam::Goods(found) ==> location
                == found.vagrant_item_lot_id + 0x1_0000_0000
                * found.vagrant_bonus_ene_drop_item_lot_id)),
        final(save_data).items_granted == old(save_data).items_granted,
        final(save_data).seed == old(save_data).seed,
        final(save_data).local_virtual_items_granted == old(save_data).local_virtual_items_granted,
        final(save_data).foreign_virtual_items_notified
            == old(save_data).foreign_virtual_items_notified,
{
    if 0 <= index < ids@.len() && is_placeholder_id(ids@[index])
        && regulation.rows@.contains_pair(ids@[index]@, EquipParam::Goods(row)) && location
        == row.vagrant_item_lot_id + 0x1_0000_0000 * row.vagrant_bonus_ene_drop_item_lot_id {
        assert(stands_for(regulation, ids@[index], location));
        assert(placeholder_locations(regulation, ids@).contains(location));
    }
    if final(save_data).locations@.contains(location) && !old(save_data).locations@.contains(
        location,
    ) {
        assert(placeholder_locations(regulation, ids@).contains(location));
        let i = choose|i: int|
            0 <= i < ids@.len() && stands_for(regulation, #[trigger] ids@[i], location);
        assert(is_placeholder_id(ids@[i]));
    }
}

/// With a connection exactly those locations are checked that a chain of the slot data's
/// triggers leads to from what is checked without one.
pub proof fn law_connections_check_virtual_locations(
    ids: &Vec<ItemId>,
    regulation: &RegulationManager,
    slot_data: &SlotData,
    save_data: &mut SaveData,
    changes: Vec<InventoryChange>,
    alone: &mut SaveData,
    alone_changes: Vec<InventoryChange>,
)
    requires
        call_ensures(
            collect_placeholders,
            (ids, regulation, Some(slot_data), save_data),
            changes,
        ),
        call_ensures(collect_placeholders, (ids, regulation, None, alone), alone_changes),
        old(save_data).locations@ == old(alone).locations@,
    ensures
        changes@ == alone_changes@,
        forall|path: Seq<i64>| #[trigger]
            is_chain(path, final(alone).locations@, slot_data.virtual_location_triggers@)
                ==> final(save_data).locations@.contains(path.last()),
        forall|location: i64| #[trigger]
            final(save_data).locations@.contains(location) ==> exists|path: Seq<i64>|
                path.len() > 0 && path.last() == location && #[trigger] is_chain(
                    path,
                    final(alone).locations@,
                    slot_data.virtual_location_triggers@,
                ),
{
    lemma_expansion_is_chains(
        final(alone).locations@,
        slot_data.virtual_location_triggers@,
    );
    assert(final(save_data).locations@ == expanded_locations(
        final(alone).locations@,
        slot_data.virtual_location_triggers@,
    ));
}

/// Whether a location is checked, was not granted yet, and holds an item for this player
/// that is mapped to an Elden Ring item.
pub open spec fn is_owed(
    slot_data: &SlotData,
    checked: Set<i64>,
    granted: Set<i64>,
    location: i64,
) -> bool {
    &&& checked.contains(location)
    &&& !granted.contains(location)
    &&& slot_data.local_virtual_location_items@.contains_key(location)
    &&& slot_data.ap_ids_to_item_ids@.contains_key(
        slot_data.local_virtual_location_items@[location],
    )
}

/// Whether a grant is what its location holds: the item there, the Elden Ring item that it
/// is mapped to, and its count, or one where it has no count.
pub open spec fn is_what_is_held(slot_data: &SlotData, grant: LocalVirtualItemGrant) -> bool {
    &&& slot_data.local_virtual_location_items@[grant.location_id] == grant.ap_item_id
    &&& slot_data.ap_ids_to_item_ids@[grant.ap_item_id].0 == grant.er_id
    &&& slot_data.item_counts@.contains_key(grant.ap_item_id) ==> grant.quantity
        == slot_data.item_counts@[grant.ap_item_id]
    &&& !slot_data.item_counts@.contains_key(grant.ap_item_id) ==> grant.quantity == 1
}

/// Every location that is owed is granted what it holds, once, whether or not the item
/// has a count, and is noted as granted. Nothing else is granted or noted, and the rest
/// of the save stays as it is.
pub proof fn law_owed_locations_are_granted(
    slot_data: &SlotData,
    save_data: &mut SaveData,
    grants: Vec<LocalVirtualItemGrant>,
    location: i64,
)
    requires
        call_ensures(
            grant_local_virtual_location_items,
            (Some(slot_data), save_data),
            grants,
        ),
    ensures
        ({
            let checked = old(save_data).locations@;
            let granted = old(save_data).local_virtual_items_granted@;
            &&& is_owed(slot_data, checked, granted, location) ==> exists|i: int|
                0 <= i < grants@.len() && (#[trigger] grants@[i]).location_id == location
            &&& forall|i: int|
                0 <= i < grants@.len() ==> is_owed(
                    slot_data,
                    checked,
                    granted,
                    (#[trigger] grants@[i]).location_id,
                ) && is_what_is_held(slot_data, grants@[i])
            &&& forall|i: int, j: int|
                0 <= i < j < grants@.len() ==> (#[trigger] grants@[i]).location_id != (
                #[trigger] grants@[j]).location_id
            &&& final(save_data).local_virtual_items_granted@.contains(location)
                <==> granted.contains(location) || is_owed(slot_data, checked, granted, location)
        }),
        final(save_data).items_granted == old(save_data).items_granted,
        final(save_data).locations == old(save_data).locations,
        final(save_data).seed == old(save_data).seed,
        final(save_data).foreign_virtual_items_notified
            == old(save_data).foreign_virtual_items_notified,
{
    lemma_owed_grants(
        slot_data,
        old(save_data).locations@,
        old(save_data).local_virtual_items_granted@,
        grants@,
        location,
    );
}

/// What it means that `grants` are those that are owed.
proof fn lemma_owed_grants(
    slot_data: &SlotData,
    checked: Set<i64>,
    granted: Set<i64>,
    grants: Seq<LocalVirtualItemGrant>,
    location: i64,
)
    requires
        grants.no_duplicates(),
        grants.to_set() == pending_grants(slot_data, checked, granted),
    ensures
        is_owed(slot_data, checked, granted, location) ==> exists|i: int|
            0 <= i < grants.len() && (#[trigger] grants[i]).location_id == location,
        forall|i: int|
            0 <= i < grants.len() ==> is_owed(
                slot_data,
                checked,
                granted,
                (#[trigger] grants[i]).location_id,
            ) && is_what_is_held(slot_data, grants[i]),
        forall|i: int, j: int|
            0 <= i < j < grants.len() ==> (#[trigger] grants[i]).location_id != (
            #[trigger] grants[j]).location_id,
{
    if is_owed(slot_data, checked, granted, location) {
        let grant = local_grant(slot_data, location)->0;
        assert(grants.to_set().contains(grant));
        let i = choose|i: int| 0 <= i < grants.len() && grants[i] == grant;
        assert(grants[i].location_id == location);
    }
    assert forall|i: int| 0 <= i < grants.len() implies pending_grants(
        slot_data,
        checked,
        granted,
    ).contains(#[trigger] grants[i]) by {
        assert(grants.to_set().contains(grants[i]));
    }
}

/// Without a connection nothing is granted, and the save stays as it is.
pub proof fn law_grants_need_a_connection(
    save_data: &mut SaveData,
    grants: Vec<LocalVirtualItemGrant>,
)
    requires
        call_ensures(grant_local_virtual_location_items, (None, save_data), grants),
    ensures
        grants@.len() == 0,
        *final(save_data) == *old(save_data),
{
}

/// Whether a location is checked, was not shown yet, and sent something to another player.
pub open spec fn is_unshown(
    slot_data: &SlotData,
    checked: Set<i64>,
    shown: Set<i64>,
    location: i64,
) -> bool {
    &&& checked.contains(location)
    &&& !shown.contains(location)
    &&& slot_data.virtual_location_display_items@.contains_key(location)
}

/// Every checked location that sent something to another player and was not shown yet is
/// shown by its display item, once, and noted as shown. Nothing else is shown or noted,
/// and the rest of the save stays as it is.
pub proof fn law_unshown_locations_are_shown(
    slot_data: &SlotData,
    save_data: &mut SaveData,
    shown: Vec<(i64, ItemId)>,
    location: i64,
)
    requires
        call_ensures(
            notify_foreign_virtual_location_items,
            (Some(slot_data), save_data),
            shown,
        ),
    ensures
        ({
            let checked = old(save_data).locations@;
            let before = old(save_data).foreign_virtual_items_notified@;
            &&& is_unshown(slot_data, checked, before, location) ==> shown@.contains(
                (location, slot_data.virtual_location_display_items@[location].0),
            )
            &&& forall|i: int|
                0 <= i < shown@.len() ==> is_unshown(
                    slot_data,
                    checked,
                    before,
                    (#[trigger] shown@[i]).0,
                ) && shown@[i].1 == slot_data.virtual_location_display_items@[shown@[i].0].0
            &&& shown@.no_duplicates()
            &&& final(save_data).foreign_virtual_items_notified@.contains(location)
                <==> before.contains(location) || is_unshown(slot_data, checked, before, location)
        }),
        final(save_data).items_granted == old(save_data).items_granted,
        final(save_data).locations == old(save_data).locations,
        final(save_data).seed == old(save_data).seed,
        final(save_data).local_virtual_items_granted == old(save_data).local_virtual_items_granted,
{
    let checked = old(save_data).locations@;
    let before = old(save_data).foreign_virtual_items_notified@;
    if is_unshown(slot_data, checked, before, location) {
        assert(shown@.to_set().contains(
            (location, slot_data.virtual_location_display_items@[location].0),
        ));
    }
    assert forall|i: int| 0 <= i < shown@.len() implies is_unshown(
        slot_data,
        checked,
        before,
        (#[trigger] shown@[i]).0,
    ) && shown@[i].1 == slot_data.virtual_location_display_items@[shown@[i].0].0 by {
        assert(shown@.to_set().contains(shown@[i]));
    }
}

/// Without a connection nothing is shown, and the save stays as it is.
pub proof fn law_showing_needs_a_connection(save_data: &mut SaveData, shown: Vec<(i64, ItemId)>)
    requires
        call_ensures(notify_foreign_virtual_location_items, (None, save_data), shown),
    ensures
        shown@.len() == 0,
        *final(save_data) == *old(save_data),
{
}

/// An update makes the changes, and checks the locations, that collecting the placeholders
/// does. It leaves the count of items and the seed of the save as they are.
pub proof fn law_updates_collect_placeholders(
    core: &mut Core,
    now: u64,
    ids: &Vec<ItemId>,
    regulation: &RegulationManager,
    slot_data: Option<&SlotData>,
    save_data: &mut SaveData,
    update: InventoryUpdate,
    collected: &mut SaveData,
    changes: Vec<InventoryChange>,
)
    requires
        call_ensures(
            Core::process_inventory_items,
            (core, now, ids, regulation, slot_data, save_data),
            update,
        ),
        call_ensures(collect_placeholders, (ids, regulation, slot_data, collected), changes),
        old(collected).locations@ == old(save_data).locations@,
    ensures
        update.changes@ == changes@,
        final(save_data).locations@ == final(collected).locations@,
        final(save_data).items_granted == old(save_data).items_granted,
        final(save_data).seed == old(save_data).seed,
{
}

/// An update with a connection grants every location that is owed once all are checked,
/// and shows every one that is unshown. Either puts the next received item off.
pub proof fn law_updates_grant_and_show(
    core: &mut Core,
    now: u64,
    ids: &Vec<ItemId>,
    regulation: &RegulationManager,
    slot_data: &SlotData,
    save_data: &mut SaveData,
    update: InventoryUpdate,
    location: i64,
)
    requires
        call_ensures(
            Core::process_inventory_items,
            (core, now, ids, regulation, Some(slot_data), save_data),
            update,
        ),
    ensures
        ({
            let checked = final(save_data).locations@;
            let granted = old(save_data).local_virtual_items_granted@;
            let shown = old(save_data).foreign_virtual_items_notified@;
            &&& is_owed(slot_data, checked, granted, location) ==> exists|i: int|
                0 <= i < update.grants@.len() && (#[trigger] update.grants@[i]).location_id
                    == location
            &&& forall|i: int|
                0 <= i < update.grants@.len() ==> is_owed(
                    slot_data,
                    checked,
                    granted,
                    (#[trigger] update.grants@[i]).location_id,
                ) && is_what_is_held(slot_data, update.grants@[i])
            &&& final(save_data).local_virtual_items_granted@.contains(location)
                <==> granted.contains(location) || is_owed(slot_data, checked, granted, location)
            &&& is_unshown(slot_data, checked, shown, location) ==> update.notifications@.contains(
                (location, slot_data.virtual_location_display_items@[location].0),
            )
            &&& forall|i: int|
                0 <= i < update.notifications@.len() ==> is_unshown(
                    slot_data,
                    checked,
                    shown,
                    (#[trigger] update.notifications@[i]).0,
                ) && update.notifications@[i].1
                    == slot_data.virtual_location_display_items@[update.notifications@[i].0].0
            &&& final(save_data).foreign_virtual_items_notified@.contains(location)
                <==> shown.contains(location) || is_unshown(slot_data, checked, shown, location)
        }),
        update.grants@.no_duplicates(),
        update.notifications@.no_duplicates(),
        update.grants@.len() > 0 || update.notifications@.len() > 0 ==> final(core).last_item_time
            == now,
        update.grants@.len() == 0 && update.notifications@.len() == 0 ==> final(
            core).last_item_time == old(core).last_item_time,
{
    let checked = final(save_data).locations@;
    let shown = old(save_data).foreign_virtual_items_notified@;
    lemma_owed_grants(
        slot_data,
        checked,
        old(save_data).local_virtual_items_granted@,
        update.grants@,
        location,
    );
    if is_unshown(slot_data, checked, shown, location) {
        assert(update.notifications@.to_set().contains(
            (location, slot_data.virtual_location_display_items@[location].0),
        ));
    }
    assert forall|i: int| 0 <= i < update.notifications@.len() implies is_unshown(
        slot_data,
        checked,
        shown,
        (#[trigger] update.notifications@[i]).0,
    ) && update.notifications@[i].1
        == slot_data.virtual_location_display_items@[update.notifications@[i].0].0 by {
        assert(update.notifications@.to_set().contains(update.notifications@[i]));
    }
}

/// An update without a connection grants, shows and sends nothing.
pub proof fn law_updates_alone_only_collect(
    core: &mut Core,
    now: u64,
    ids: &Vec<ItemId>,
    regulation: &RegulationManager,
    save_data: &mut SaveData,
    update: InventoryUpdate,
)
    requires
        call_ensures(
            Core::process_inventory_items,
            (core, now, ids, regulation, None, save_data),
            update,
        ),
    ensures
        update.grants@.len() == 0,
        update.notifications@.len() == 0,
        update.locations is None,
        final(save_data).local_virtual_items_granted == old(save_data).local_virtual_items_granted,
        final(save_data).foreign_virtual_items_notified
            == old(save_data).foreign_virtual_items_notified,
        *final(core) == *old(core),
{
}

/// An update sends all checked locations, each once, where there is a connection and they
/// are more than were sent, and none otherwise. That they were sent is noted later.
pub proof fn law_updates_send_locations(
    core: &mut Core,
    now: u64,
    ids: &Vec<ItemId>,
    regulation: &RegulationManager,
    slot_data: Option<&SlotData>,
    save_data: &mut SaveData,
    update: InventoryUpdate,
    location: i64,
)
    requires
        call_ensures(
            Core::process_inventory_items,
            (core, now, ids, regulation, slot_data, save_data),
            update,
        ),
    ensures
        update.locations is Some <==> slot_data is Some && final(save_data).locations@.len() > old(
            core).locations_sent,
        update.locations is Some ==> update.locations->0@.no_duplicates() && (
        update.locations->0@.contains(location) <==> final(save_data).locations@.contains(
            location,
        )),
        final(core).locations_sent == old(core).locations_sent,
        final(core).sent_goal == old(core).sent_goal,
        final(core).item_get_display_restores == old(core).item_get_display_restores,
{
    if update.locations is Some {
        assert(update.locations->0@.to_set().contains(location)
            <==> update.locations->0@.contains(location));
    }
}

/// The checked locations are sent, all and each once, where there is a connection and they
/// are more than were sent.
pub proof fn law_locations_are_sent(
    core: Core,
    save_data: &SaveData,
    connected: bool,
    locations: Option<Vec<i64>>,
    location: i64,
)
    requires
        call_ensures(Core::locations_to_send, (&core, save_data, connected), locations),
    ensures
        locations is Some <==> connected && save_data.locations@.len() > core.locations_sent,
        locations is Some ==> locations->0@.no_duplicates() && locations->0@.len()
            == save_data.locations@.len() && (locations->0@.contains(location)
            <==> save_data.locations@.contains(location)),
{
    if locations is Some {
        assert(locations->0@.to_set().contains(location) <==> locations->0@.contains(location));
    }
}

/// As many locations count as sent as were sent.
pub proof fn law_sent_locations_are_counted(core: &mut Core, sent: &Vec<i64>)
    requires
        call_ensures(Core::note_locations_sent, (core, sent), ()),
    ensures
        final(core).locations_sent == sent@.len(),
        final(core).last_item_time == old(core).last_item_time,
        final(core).sent_goal == old(core).sent_goal,
        final(core).item_get_display_restores == old(core).item_get_display_restores,
{
}

/// Something that has a name is called by it, and something that has none by its number.
pub proof fn law_labels_name_or_number(
    id: i64,
    name: Option<&str>,
    item: String,
    location: String,
)
    requires
        call_ensures(item_label, (id, name), item),
        call_ensures(location_label, (id, name), location),
    ensures
        name is Some ==> item@ == name->0@ && location@ == name->0@,
        name is None ==> exists|digits: Seq<char>|
            #![trigger i64_value(digits)]
            i64_value(digits) == Some(id) && item@ == "<item #"@ + digits + ">"@ && location@
                == "<location #"@ + digits + ">"@,
{
    law_i64_reads_back(id);
    assert(i64_value(integer_text(id as int)) == Some(id));
}

/// An item that this player found at a location that others trigger is called by the
/// location's name after that of one of those, if it has one.
pub proof fn law_triggered_locations_are_called_by_both_names<F: Fn(i64) -> Option<String>>(
    client: &Client,
    item: &ReceivedItem,
    location_name: &F,
    names: spec_fn(i64) -> Option<Seq<char>>,
    name: String,
    trigger: i64,
)
    requires
        call_ensures(
            received_item_location_display_name,
            (client, item, location_name),
            name,
        ),
        names_as(*location_name, names),
        item.sender_team == client.team,
        item.sender_slot == client.slot,
        client.slot_data.virtual_location_triggers@.contains_key(trigger),
        client.slot_data.virtual_location_triggers@[trigger]@.contains(item.location_id),
        forall|other: i64| #[trigger]
            client.slot_data.virtual_location_triggers@.contains_key(other)
                && client.slot_data.virtual_location_triggers@[other]@.contains(item.location_id)
                ==> other == trigger,
    ensures
        names(trigger) is Some ==> name@ == names(trigger)->0 + " ["@ + item.location_name@ + "]"@,
        names(trigger) is None ==> name@ == item.location_name@,
{
    assert(client.slot_data.triggers(trigger, item.location_id));
    let t = choose|t: i64| #[trigger]
        client.slot_data.triggers(t, item.location_id) && name@
            == crate::locations::triggered_name(names(t), item.location_name@);
    assert(client.slot_data.virtual_location_triggers@.contains_key(t));
}

/// An item that another player found, or that was found at a location that nothing
/// triggers, is called by the location's name alone.
pub proof fn law_other_locations_are_called_by_their_name<F: Fn(i64) -> Option<String>>(
    client: &Client,
    item: &ReceivedItem,
    location_name: &F,
    names: spec_fn(i64) -> Option<Seq<char>>,
    name: String,
)
    requires
        call_ensures(
            received_item_location_display_name,
            (client, item, location_name),
            name,
        ),
        names_as(*location_name, names),
        item.sender_team != client.team || item.sender_slot != client.slot || (forall|other: i64|
            #[trigger]
            client.slot_data.virtual_location_triggers@.contains_key(other)
                ==> !client.slot_data.virtual_location_triggers@[other]@.contains(
                item.location_id,
            )),
    ensures
        name@ == item.location_name@,
{
}

} // verus!
