//! Event flags: regions, map markers and the goal.

use std::collections::HashMap;

use vstd::prelude::*;

use crate::client::Client;
use crate::client_core::Core;
use crate::goal::{goal_reached, reads_as};
use crate::inventory::InventoryEntry;
use crate::item_id::ItemId;
use crate::laws::slots::owns;
use crate::region_lock::{companion_goods_for_er_lock_id, goods_items};
use crate::save_data::SaveData;
use crate::slot_data::{answers_as, EventFlagId, MarkerRequirement};
use crate::sync::{
    flag_entries, granted_virtually, missing_companions, sync_priority_location_marker,
    sync_region_lock, RegionLockStep,
};

verus! {

/// A region lock that the server sent opens its region, whatever is saved or held.
pub proof fn law_sent_locks_open_regions(
    client: &Client,
    save_data: &Option<SaveData>,
    inventory: Option<&Vec<InventoryEntry>>,
    loaded: bool,
    id: i64,
    flag: Option<bool>,
    step: RegionLockStep,
    index: int,
)
    requires
        call_ensures(sync_region_lock, (client, save_data, inventory, loaded, id, flag), step),
        0 <= index < client.received_items@.len(),
        client.received_items@[index].item_id == id,
    ensures
        step.set_flag <==> flag != Some(true),
{
    assert(client.received_ids()[index] == id);
}

/// A region lock that a virtual location granted opens its region, whatever was sent or
/// is held.
pub proof fn law_granted_locks_open_regions(
    client: &Client,
    save_data: &Option<SaveData>,
    inventory: Option<&Vec<InventoryEntry>>,
    loaded: bool,
    id: i64,
    flag: Option<bool>,
    step: RegionLockStep,
    location: i64,
)
    requires
        call_ensures(sync_region_lock, (client, save_data, inventory, loaded, id, flag), step),
        save_data is Some,
        save_data->0.local_virtual_items_granted@.contains(location),
        client.slot_data.local_virtual_location_items@.contains_key(location),
        client.slot_data.local_virtual_location_items@[location] == id,
    ensures
        step.set_flag <==> flag != Some(true),
{
    assert(granted_virtually(&client.slot_data, *save_data, id));
}

/// A region lock that is held opens its region, whatever was sent or is saved.
pub proof fn law_held_locks_open_regions(
    client: &Client,
    save_data: &Option<SaveData>,
    inventory: Option<&Vec<InventoryEntry>>,
    loaded: bool,
    id: i64,
    flag: Option<bool>,
    step: RegionLockStep,
    slot: int,
)
    requires
        call_ensures(sync_region_lock, (client, save_data, inventory, loaded, id, flag), step),
        inventory is Some,
        client.slot_data.ap_ids_to_item_ids@.contains_key(id),
        0 <= slot < inventory->0@.len(),
        inventory->0@[slot].item_id == client.slot_data.ap_ids_to_item_ids@[id].0,
        inventory->0@[slot].quantity > 0,
    ensures
        step.set_flag <==> flag != Some(true),
{
}

/// A region opens for no other reason than that its lock was sent, granted by a virtual
/// location or held, and an open one is left alone.
pub proof fn law_regions_open_for_a_reason(
    client: &Client,
    save_data: &Option<SaveData>,
    inventory: Option<&Vec<InventoryEntry>>,
    loaded: bool,
    id: i64,
    flag: Option<bool>,
    step: RegionLockStep,
)
    requires
        call_ensures(sync_region_lock, (client, save_data, inventory, loaded, id, flag), step),
    ensures
        flag == Some(true) ==> !step.set_flag,
        !step.set_flag || !loaded ==> step.companions@.len() == 0,
        step.set_flag ==> {
            ||| exists|i: int|
                0 <= i < client.received_items@.len() && (
                #[trigger] client.received_items@[i]).item_id == id
            ||| save_data is Some && exists|location: i64| #[trigger]
                save_data->0.local_virtual_items_granted@.contains(location)
                    && client.slot_data.local_virtual_location_items@.contains_key(location)
                    && client.slot_data.local_virtual_location_items@[location] == id
            ||| inventory is Some && client.slot_data.ap_ids_to_item_ids@.contains_key(id)
                && exists|i: int|
                0 <= i < inventory->0@.len() && (#[trigger] inventory->0@[i]).item_id
                    == client.slot_data.ap_ids_to_item_ids@[id].0 && inventory->0@[i].quantity > 0
        },
{
    if client.received_ids().contains(id) {
        let i = choose|i: int|
            0 <= i < client.received_ids().len() && client.received_ids()[i] == id;
        assert(client.received_items@[i].item_id == id);
    }
}

/// Owning more never keeps a region shut.
pub proof fn law_owning_more_keeps_regions_open(
    fewer: &Client,
    more: &Client,
    fewer_saved: &Option<SaveData>,
    more_saved: &Option<SaveData>,
    fewer_held: Option<&Vec<InventoryEntry>>,
    more_held: Option<&Vec<InventoryEntry>>,
    loaded: bool,
    id: i64,
    flag: Option<bool>,
    before: RegionLockStep,
    after: RegionLockStep,
)
    requires
        call_ensures(
            sync_region_lock,
            (fewer, fewer_saved, fewer_held, loaded, id, flag),
            before,
        ),
        call_ensures(sync_region_lock, (more, more_saved, more_held, loaded, id, flag), after),
        more.slot_data == fewer.slot_data,
        fewer.received_items@.is_prefix_of(more.received_items@),
        fewer_saved is Some ==> more_saved is Some
            && fewer_saved->0.local_virtual_items_granted@.subset_of(
            more_saved->0.local_virtual_items_granted@,
        ),
        fewer_held is Some ==> more_held is Some && fewer_held->0@.is_prefix_of(more_held->0@),
        before.set_flag,
    ensures
        after.set_flag,
{
    if fewer.received_ids().contains(id) {
        let i = choose|i: int|
            0 <= i < fewer.received_ids().len() && fewer.received_ids()[i] == id;
        assert(more.received_items@[i] == fewer.received_items@[i]);
        law_sent_locks_open_regions(more, more_saved, more_held, loaded, id, flag, after, i);
    } else if granted_virtually(&fewer.slot_data, *fewer_saved, id) {
        let location = choose|location: i64| #[trigger]
            fewer_saved->0.local_virtual_items_granted@.contains(location)
                && fewer.slot_data.local_virtual_location_items@.get(location) == Some(id);
        law_granted_locks_open_regions(
            more,
            more_saved,
            more_held,
            loaded,
            id,
            flag,
            after,
            location,
        );
    } else {
        let i = choose|i: int|
            0 <= i < fewer_held->0@.len() && (#[trigger] fewer_held->0@[i]).item_id
                == fewer.slot_data.ap_ids_to_item_ids@[id].0 && fewer_held->0@[i].quantity > 0;
        assert(more_held->0@[i] == fewer_held->0@[i]);
        law_held_locks_open_regions(more, more_saved, more_held, loaded, id, flag, after, i);
    }
}

/// A region that opens comes with those companions of its lock that are not held, in
/// order, one of each.
pub proof fn law_regions_open_with_their_companions(
    client: &Client,
    save_data: &Option<SaveData>,
    inventory: Option<&Vec<InventoryEntry>>,
    id: i64,
    flag: Option<bool>,
    step: RegionLockStep,
    goods: Vec<u32>,
)
    requires
        call_ensures(sync_region_lock, (client, save_data, inventory, true, id, flag), step),
        step.set_flag,
        client.slot_data.ap_ids_to_item_ids@.contains_key(id) ==> call_ensures(
            companion_goods_for_er_lock_id,
            ((client.slot_data.ap_ids_to_item_ids@[id].0@ % 0x1000_0000) as u32,),
            goods,
        ),
    ensures
        !client.slot_data.ap_ids_to_item_ids@.contains_key(id) ==> step.companions@.len() == 0,
        client.slot_data.ap_ids_to_item_ids@.contains_key(id) ==> step.companions@ == Seq::new(
            goods@.len(),
            |i: int| ItemId::from_raw((0x4000_0000 + goods@[i]) as u32),
        ).filter(
            |item: ItemId|
                inventory is Some ==> forall|i: int|
                    0 <= i < inventory->0@.len() && (#[trigger] inventory->0@[i]).item_id == item
                        ==> inventory->0@[i].quantity == 0,
        ),
{
    if client.slot_data.ap_ids_to_item_ids@.contains_key(id) {
        assert(goods_items(goods@) =~= Seq::new(
            goods@.len(),
            |i: int| ItemId::from_raw((0x4000_0000 + goods@[i]) as u32),
        ));
        let absent = |item: ItemId| !crate::inventory::inventory_holds(inventory, item);
        let unheld = |item: ItemId|
            inventory is Some ==> forall|i: int|
                0 <= i < inventory->0@.len() && (#[trigger] inventory->0@[i]).item_id == item
                    ==> inventory->0@[i].quantity == 0;
        assert(absent =~= unheld);
        assert(step.companions@ == missing_companions(&client.slot_data, inventory, id));
    }
}

/// The flag of a marker is brought to whether the marker is shown: its location is not
/// checked, and its requirement, which it has, is met by what is owned and checked. It is
/// written only where it does not say so already.
pub proof fn law_marker_flags_are_brought_in_step<F: Fn(i64) -> bool>(
    client: &Client,
    inventory: Option<&Vec<InventoryEntry>>,
    is_checked: &F,
    location: i64,
    flag: Option<bool>,
    write: Option<bool>,
    received: Seq<i64>,
    items: spec_fn(i64) -> bool,
    checked: spec_fn(i64) -> bool,
)
    requires
        call_ensures(
            sync_priority_location_marker,
            (client, inventory, is_checked, location, flag),
            write,
        ),
        answers_as(*is_checked, checked),
        received.len() == client.received_items@.len(),
        forall|i: int|
            0 <= i < received.len() ==> #[trigger] received[i] == client.received_items@[i].item_id,
        forall|id: i64| #[trigger] items(id) <==> owns(&client.slot_data, received, inventory, id),
    ensures
        ({
            let requirements = client.slot_data.priority_marker_requirements@;
            let visible = !checked(location) && requirements.contains_key(location)
                && requirements[location].met(items, checked);
            if flag == Some(visible) {
                write is None
            } else {
                write == Some(visible)
            }
        }),
{
    assert(client.received_ids() =~= received);
    let owned = |item_id: i64|
        client.slot_data.owns_ap_item(client.received_ids(), inventory, item_id);
    assert forall|id: i64| #[trigger] owned(id) == items(id) by {
        assert(items(id) <==> owns(&client.slot_data, received, inventory, id));
    }
    assert(owned =~= items);
}

/// The marker of an unchecked location that asks for one item is shown while the item is
/// held, even if the server sent nothing.
pub proof fn law_held_items_show_markers<F: Fn(i64) -> bool>(
    client: &Client,
    inventory: Option<&Vec<InventoryEntry>>,
    is_checked: &F,
    location: i64,
    flag: Option<bool>,
    write: Option<bool>,
    checked: spec_fn(i64) -> bool,
    id: i64,
    slot: int,
)
    requires
        call_ensures(
            sync_priority_location_marker,
            (client, inventory, is_checked, location, flag),
            write,
        ),
        answers_as(*is_checked, checked),
        !checked(location),
        client.slot_data.priority_marker_requirements@.contains_key(location),
        client.slot_data.priority_marker_requirements@[location] == MarkerRequirement::Item(id),
        client.slot_data.ap_ids_to_item_ids@.contains_key(id),
        inventory is Some,
        0 <= slot < inventory->0@.len(),
        inventory->0@[slot].item_id == client.slot_data.ap_ids_to_item_ids@[id].0,
        inventory->0@[slot].quantity > 0,
    ensures
        write == Some(true) || (write is None && flag == Some(true)),
{
}

/// The marker of an unchecked location that asks for one item is shown once the server
/// sent the item, whatever is held.
pub proof fn law_sent_items_show_markers<F: Fn(i64) -> bool>(
    client: &Client,
    inventory: Option<&Vec<InventoryEntry>>,
    is_checked: &F,
    location: i64,
    flag: Option<bool>,
    write: Option<bool>,
    checked: spec_fn(i64) -> bool,
    id: i64,
    index: int,
)
    requires
        call_ensures(
            sync_priority_location_marker,
            (client, inventory, is_checked, location, flag),
            write,
        ),
        answers_as(*is_checked, checked),
        !checked(location),
        client.slot_data.priority_marker_requirements@.contains_key(location),
        client.slot_data.priority_marker_requirements@[location] == MarkerRequirement::Item(id),
        0 <= index < client.received_items@.len(),
        client.received_items@[index].item_id == id,
    ensures
        write == Some(true) || (write is None && flag == Some(true)),
{
    assert(client.received_ids()[index] == id);
}

/// The marker of a checked location is hidden.
pub proof fn law_checked_locations_have_no_marker<F: Fn(i64) -> bool>(
    client: &Client,
    inventory: Option<&Vec<InventoryEntry>>,
    is_checked: &F,
    location: i64,
    flag: Option<bool>,
    write: Option<bool>,
    checked: spec_fn(i64) -> bool,
)
    requires
        call_ensures(
            sync_priority_location_marker,
            (client, inventory, is_checked, location, flag),
            write,
        ),
        answers_as(*is_checked, checked),
        checked(location),
    ensures
        write == Some(false) || (write is None && flag == Some(false)),
{
}

/// The entries of a table of flags are listed, each once.
pub proof fn law_flag_tables_are_listed(
    flags: &HashMap<i64, EventFlagId>,
    entries: Vec<(i64, EventFlagId)>,
    key: i64,
)
    requires
        call_ensures(flag_entries, (flags,), entries),
    ensures
        entries@.no_duplicates(),
        flags@.contains_key(key) ==> entries@.contains((key, flags@[key])),
        forall|i: int|
            0 <= i < entries@.len() ==> flags@.contains_key((#[trigger] entries@[i]).0)
                && flags@[entries@[i].0] == entries@[i].1,
{
    if flags@.contains_key(key) {
        assert(flags@.kv_pairs().contains((key, flags@[key])));
    }
    assert forall|i: int| 0 <= i < entries@.len() implies flags@.contains_key(
        (#[trigger] entries@[i]).0,
    ) && flags@[entries@[i].0] == entries@[i].1 by {
        assert(entries@.to_set().contains(entries@[i]));
    }
}

/// The server is not told that the player has won while any flag of the goal, wherever it
/// stands, does not read as set.
pub proof fn law_open_goals_are_not_sent<F: Fn(EventFlagId) -> Option<bool>>(
    core: Core,
    goal: &Vec<EventFlagId>,
    get_event_flag: &F,
    values: spec_fn(EventFlagId) -> Option<bool>,
    send: bool,
    index: int,
)
    requires
        call_ensures(Core::handle_goal, (&core, Some(goal), get_event_flag), send),
        reads_as(*get_event_flag, values),
        0 <= index < goal@.len(),
        values(goal@[index]) != Some(true),
    ensures
        !send,
{
}

/// The server is told that the player has won once every flag of the goal reads as set,
/// unless it was told already.
pub proof fn law_reached_goals_are_sent<F: Fn(EventFlagId) -> Option<bool>>(
    core: Core,
    goal: &Vec<EventFlagId>,
    get_event_flag: &F,
    values: spec_fn(EventFlagId) -> Option<bool>,
    send: bool,
)
    requires
        call_ensures(Core::handle_goal, (&core, Some(goal), get_event_flag), send),
        reads_as(*get_event_flag, values),
        forall|i: int| 0 <= i < goal@.len() ==> values(#[trigger] goal@[i]) == Some(true),
    ensures
        send <==> !core.sent_goal,
{
}

/// Without a connection there is nobody to tell that the player has won.
pub proof fn law_goals_need_a_connection<F: Fn(EventFlagId) -> Option<bool>>(
    core: Core,
    get_event_flag: &F,
    values: spec_fn(EventFlagId) -> Option<bool>,
    send: bool,
)
    requires
        call_ensures(Core::handle_goal, (&core, None, get_event_flag), send),
        reads_as(*get_event_flag, values),
    ensures
        !send,
{
}

/// Whether the server is told does not depend on the order of the goal's flags, nor on how
/// often one is listed.
pub proof fn law_goals_have_no_order<F: Fn(EventFlagId) -> Option<bool>>(
    core: Core,
    goal: &Vec<EventFlagId>,
    other: &Vec<EventFlagId>,
    get_event_flag: &F,
    values: spec_fn(EventFlagId) -> Option<bool>,
    send: bool,
    other_send: bool,
)
    requires
        call_ensures(Core::handle_goal, (&core, Some(goal), get_event_flag), send),
        call_ensures(Core::handle_goal, (&core, Some(other), get_event_flag), other_send),
        reads_as(*get_event_flag, values),
        forall|flag: EventFlagId| #[trigger] goal@.contains(flag) <==> other@.contains(flag),
    ensures
        send == other_send,
{
    if goal_reached(goal@, values) {
        assert forall|i: int| 0 <= i < other@.len() implies values(#[trigger] other@[i]) == Some(
            true,
        ) by {
            assert(goal@.contains(other@[i]));
        }
    }
    if goal_reached(other@, values) {
        assert forall|i: int| 0 <= i < goal@.len() implies values(#[trigger] goal@[i]) == Some(
            true,
        ) by {
            assert(goal@.contains(goal@[i]));
        }
    }
}

} // verus!
