//! Items that the server sent, and how their pickup is displayed.

use vstd::prelude::*;

use crate::client::{Client, ReceivedItem};
use crate::client_core::Core;
use crate::display::{law_sweep_splits_by_time, ItemGetDisplay, ItemGetDisplayRestore};
use crate::incoming::{
    is_next, next_received_item, received_item_grants, PopupSettings, ReceivedGrant,
};
use crate::item_id::ItemId;
use crate::region_lock::companion_region_lock_goods;
use crate::save_data::SaveData;
use crate::slot_data::SlotData;

verus! {

/// The next item to grant is the first whose number is at least the count of those
/// granted, and there is none only if no number is.
pub proof fn law_next_item_is_the_first_due(
    items: &Vec<ReceivedItem>,
    granted: usize,
    next: Option<usize>,
)
    requires
        call_ensures(next_received_item, (items, granted), next),
    ensures
        next is Some ==> next->0 < items@.len() && items@[next->0 as int].index >= granted,
        forall|i: int|
            0 <= i < items@.len() && (#[trigger] items@[i]).index >= granted ==> next is Some
                && next->0 <= i,
{
}

/// What is granted for a received item: first the item that it is mapped to, as often as
/// its count says and once without one, then one of each of its companions. All of them
/// show a pop-up, or none does.
pub proof fn law_received_items_are_granted(
    slot_data: &SlotData,
    settings: PopupSettings,
    item: &ReceivedItem,
    name: &str,
    goods: Vec<u32>,
    grants: Vec<ReceivedGrant>,
)
    requires
        call_ensures(received_item_grants, (slot_data, settings, item), grants),
        name@ == item.item_name@,
        call_ensures(companion_region_lock_goods, (name,), goods),
    ensures
        grants@.len() == 1 + goods@.len(),
        slot_data.ap_ids_to_item_ids@.contains_key(item.item_id) ==> grants@[0].id
            == slot_data.ap_ids_to_item_ids@[item.item_id].0,
        slot_data.item_counts@.contains_key(item.item_id) ==> grants@[0].quantity
            == slot_data.item_counts@[item.item_id],
        !slot_data.item_counts@.contains_key(item.item_id) ==> grants@[0].quantity == 1,
        forall|i: int|
            0 <= i < goods@.len() ==> (#[trigger] grants@[i + 1]).id@ == 0x4000_0000 + goods@[i]
                && grants@[i + 1].quantity == 1,
        forall|i: int|
            0 <= i < grants@.len() ==> ((#[trigger] grants@[i]).show_popup
                <==> settings.show_item_popups || (settings.show_progression_item_popups
                && slot_data.non_deprioritized_progression_item_ids@.contains(item.item_id))),
{
    broadcast use ItemId::lemma_view_of_from_raw;

}

/// An item is granted where there is a connection, a world, a save and an item that is
/// due, and the last grant is at least 33 milliseconds ago. It is granted as such an item
/// is, counted, and puts the next grant off.
pub proof fn law_due_items_are_granted(
    core: &mut Core,
    now: u64,
    settings: PopupSettings,
    client: &Client,
    save_data: &mut Option<SaveData>,
    grants: Vec<ReceivedGrant>,
    next: usize,
    expected: Vec<ReceivedGrant>,
)
    requires
        call_ensures(
            Core::process_incoming_items,
            (core, now, settings, Some(client), true, save_data),
            grants,
        ),
        (*old(save_data)) is Some,
        now >= old(core).last_item_time + 33_000_000,
        call_ensures(
            next_received_item,
            (&client.received_items, (*old(save_data))->0.items_granted),
            Some(next),
        ),
        call_ensures(
            received_item_grants,
            (&client.slot_data, settings, &client.received_items@[next as int]),
            expected,
        ),
    ensures
        grants@ == expected@,
        (*final(save_data)) is Some,
        (*old(save_data))->0.items_granted < usize::MAX ==> (*final(save_data))->0.items_granted
            == (*old(save_data))->0.items_granted + 1,
        (*final(save_data))->0.locations == (*old(save_data))->0.locations,
        (*final(save_data))->0.seed == (*old(save_data))->0.seed,
        (*final(save_data))->0.local_virtual_items_granted == (
        *old(save_data))->0.local_virtual_items_granted,
        (*final(save_data))->0.foreign_virtual_items_notified == (
        *old(save_data))->0.foreign_virtual_items_notified,
        final(core).last_item_time == now,
        final(core).locations_sent == old(core).locations_sent,
        final(core).sent_goal == old(core).sent_goal,
        final(core).item_get_display_restores == old(core).item_get_display_restores,
{
    assert(is_next(
        client.received_items@,
        (*old(save_data))->0.items_granted,
        next as int,
    ));
}

/// Nothing is granted, and a save stays as it is, without a connection or a world, within
/// 33 milliseconds of the last grant, or where no item is due.
pub proof fn law_nothing_else_is_granted(
    core: &mut Core,
    now: u64,
    settings: PopupSettings,
    client: Option<&Client>,
    loaded: bool,
    save_data: &mut Option<SaveData>,
    grants: Vec<ReceivedGrant>,
)
    requires
        call_ensures(
            Core::process_incoming_items,
            (core, now, settings, client, loaded, save_data),
            grants,
        ),
        client is None || !loaded || (*old(save_data)) is None || now < old(core).last_item_time
            + 33_000_000 || (forall|i: int|
            0 <= i < client->0.received_items@.len() ==> (
            #[trigger] client->0.received_items@[i]).index < (*old(save_data))->0.items_granted),
    ensures
        grants@.len() == 0,
        (*old(save_data)) is Some ==> *final(save_data) == *old(save_data),
        *final(core) == *old(core),
{
}

/// A new file gets save data with nothing in it as soon as there is a connection and a
/// world, and not before.
pub proof fn law_new_files_get_save_data(
    core: &mut Core,
    now: u64,
    settings: PopupSettings,
    client: Option<&Client>,
    loaded: bool,
    save_data: &mut Option<SaveData>,
    grants: Vec<ReceivedGrant>,
)
    requires
        call_ensures(
            Core::process_incoming_items,
            (core, now, settings, client, loaded, save_data),
            grants,
        ),
        (*old(save_data)) is None,
    ensures
        (*final(save_data)) is Some <==> client is Some && loaded,
        (*final(save_data)) is Some ==> {
            let data = (*final(save_data))->0;
            &&& data.items_granted == 0
            &&& data.seed is None
            &&& forall|id: i64| !#[trigger] data.locations@.contains(id)
            &&& forall|id: i64| !#[trigger] data.local_virtual_items_granted@.contains(id)
            &&& forall|id: i64| !#[trigger] data.foreign_virtual_items_notified@.contains(id)
        },
{
}

/// An item whose display is suppressed for the first time is noted with the display that
/// it had, for 75 milliseconds, and nothing else changes.
pub proof fn law_first_suppression_is_noted(
    core: &mut Core,
    id: ItemId,
    previous: ItemGetDisplay,
    now: u64,
)
    requires
        call_ensures(Core::suppress_item_get_display, (core, id, Some(previous), now), ()),
        now + 75_000_000 <= u64::MAX,
        forall|i: int|
            0 <= i < old(core).item_get_display_restores@.len() ==> (
            #[trigger] old(core).item_get_display_restores@[i]).id != id,
    ensures
        final(core).item_get_display_restores@ == old(core).item_get_display_restores@.push(
            ItemGetDisplayRestore { id, previous, restore_at: (now + 75_000_000) as u64 },
        ),
        final(core).last_item_time == old(core).last_item_time,
        final(core).locations_sent == old(core).locations_sent,
        final(core).sent_goal == old(core).sent_goal,
{
}

/// An item whose display is suppressed already keeps the display that is to be restored,
/// and is put off to 75 milliseconds from now. No other item is touched.
pub proof fn law_later_suppressions_put_off(
    core: &mut Core,
    id: ItemId,
    previous: ItemGetDisplay,
    now: u64,
    index: int,
)
    requires
        call_ensures(Core::suppress_item_get_display, (core, id, Some(previous), now), ()),
        now + 75_000_000 <= u64::MAX,
        0 <= index < old(core).item_get_display_restores@.len(),
        old(core).item_get_display_restores@[index].id == id,
    ensures
        ({
            let before = old(core).item_get_display_restores@;
            let after = final(core).item_get_display_restores@;
            &&& after.len() == before.len()
            &&& after[index].id == id
            &&& after[index].previous == before[index].previous
            &&& after[index].restore_at == now + 75_000_000
            &&& forall|i: int|
                0 <= i < before.len() && i != index ==> #[trigger] after[i] == before[i]
        }),
{
}

/// A display that could not be changed is not noted.
pub proof fn law_unchanged_displays_are_not_noted(core: &mut Core, id: ItemId, now: u64)
    requires
        call_ensures(Core::suppress_item_get_display, (core, id, None, now), ()),
    ensures
        final(core).item_get_display_restores@ == old(core).item_get_display_restores@,
        final(core).last_item_time == old(core).last_item_time,
        final(core).locations_sent == old(core).locations_sent,
        final(core).sent_goal == old(core).sent_goal,
{
}

/// A sweep takes out exactly the displays whose time has come, each once and as it was
/// noted, and keeps all others.
pub proof fn law_expired_displays_are_restored(
    core: &mut Core,
    now: u64,
    expired: Vec<ItemGetDisplayRestore>,
)
    requires
        call_ensures(Core::restore_expired_item_get_displays, (core, now), expired),
    ensures
        expired@.to_multiset().add(final(core).item_get_display_restores@.to_multiset()) == old(
            core,
        ).item_get_display_restores@.to_multiset(),
        forall|i: int| 0 <= i < expired@.len() ==> (#[trigger] expired@[i]).restore_at <= now,
        forall|i: int|
            0 <= i < final(core).item_get_display_restores@.len() ==> (
            #[trigger] final(core).item_get_display_restores@[i]).restore_at > now,
        final(core).last_item_time == old(core).last_item_time,
        final(core).locations_sent == old(core).locations_sent,
        final(core).sent_goal == old(core).sent_goal,
{
    law_sweep_splits_by_time(old(core).item_get_display_restores@, 0, now);
}

} // verus!
