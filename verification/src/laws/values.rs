//! Small values, and which calls are open to every caller.

use vstd::prelude::*;

use crate::client::Client;
use crate::client_core::Core;
use crate::display::ItemGetDisplay;
use crate::game::{EldenRing, HudState};
use crate::incoming::PopupSettings;
use crate::item::{
    has_meaning, on_grant_items, show_item_get_dialog, suppress_item_get_dialog, DisplayItemQueue,
    EquipParam, GoodsRow, ItemBufferEntry, RegulationManager,
};
use crate::item_id::{goods_item_id, ItemId};
use crate::laws::checks::{is_placeholder_id, is_readable_row};
use crate::locations::collect_placeholders;
use crate::save_data::SaveData;
use crate::seed::DlcError;
use crate::slot_data::{int_to_bool, EventFlagId, SlotData};

verus! {

/// A client starts with nothing sent and nothing suppressed, and counts its first grant
/// from its start.
pub proof fn law_clients_start_afresh(now: u64, core: Core)
    requires
        call_ensures(Core::new, (now,), core),
    ensures
        core.last_item_time == now,
        core.locations_sent == 0,
        !core.sent_goal,
        core.item_get_display_restores@.len() == 0,
{
}

/// An item can be granted from 33 milliseconds after the last one on.
pub proof fn law_grants_are_due_in_time(core: Core, now: u64, due: bool)
    requires
        call_ensures(Core::is_grant_due, (&core, now), due),
    ensures
        due <==> now >= core.last_item_time + 33_000_000,
{
}

/// Noting that the goal was sent notes that and nothing else.
pub proof fn law_sent_goals_are_noted(core: &mut Core)
    requires
        call_ensures(Core::note_goal_sent, (core,), ()),
    ensures
        final(core).sent_goal,
        final(core).last_item_time == old(core).last_item_time,
        final(core).locations_sent == old(core).locations_sent,
        final(core).item_get_display_restores == old(core).item_get_display_restores,
{
}

/// The received IDs are those of the received items, in order.
pub proof fn law_received_ids_are_in_order(client: &Client, ids: Vec<i64>)
    requires
        call_ensures(Client::received_item_ids, (client,), ids),
    ensures
        ids@.len() == client.received_items@.len(),
        forall|i: int|
            0 <= i < ids@.len() ==> #[trigger] ids@[i] == client.received_items@[i].item_id,
{
}

/// No world means the main menu, which is a menu. In a world, two states of the heads-up
/// display mean that a menu is open.
pub proof fn law_menus_are_seen(
    world: bool,
    hud_state: Option<HudState>,
    main_menu: bool,
    open: bool,
)
    requires
        call_ensures(EldenRing::is_main_menu, (world,), main_menu),
        call_ensures(EldenRing::is_menu_open, (world, hud_state), open),
    ensures
        main_menu <==> !world,
        main_menu ==> open,
        !main_menu ==> (open <==> hud_state is Some && (hud_state->0 is ShowAll || hud_state->0
            is PopupMenu)),
{
}

/// A pickup whose display is suppressed is only logged, and one whose dialog is shown is
/// logged too.
pub proof fn law_pickups_are_logged(
    suppressed: ItemGetDisplay,
    shown: ItemGetDisplay,
    hidden: ItemGetDisplay,
)
    requires
        call_ensures(ItemGetDisplay::suppressed, (), suppressed),
        call_ensures(show_item_get_dialog, (), shown),
        call_ensures(suppress_item_get_dialog, (), hidden),
    ensures
        suppressed.show_log && suppressed.show_dialog == 0,
        hidden.show_log && hidden.show_dialog == 0,
        shown.show_log && shown.show_dialog == 2,
{
}

/// Replacing a display hands back the one that was there.
pub proof fn law_displays_are_replaced(
    current: &mut ItemGetDisplay,
    display: ItemGetDisplay,
    previous: ItemGetDisplay,
)
    requires
        call_ensures(ItemGetDisplay::replace, (current, display), previous),
    ensures
        *final(current) == display,
        previous == *old(current),
{
}

/// A queue starts empty, and what is queued goes to its end.
pub proof fn law_queues_are_in_order(
    empty: DisplayItemQueue,
    queue: &mut DisplayItemQueue,
    id: ItemId,
)
    requires
        call_ensures(DisplayItemQueue::new, (), empty),
        call_ensures(DisplayItemQueue::queue_display_item_cleanup, (queue, id), ()),
    ensures
        empty.items@.len() == 0,
        final(queue).items@.len() == old(queue).items@.len() + 1,
        final(queue).items@.last() == id,
        final(queue).items@.drop_last() == old(queue).items@,
{
    assert(final(queue).items@.drop_last() =~= old(queue).items@);
}

/// The row of an item is the one that is kept for its number.
pub proof fn law_rows_are_found(
    regulation: &RegulationManager,
    id: ItemId,
    row: Option<EquipParam>,
    goods: Option<GoodsRow>,
)
    requires
        call_ensures(RegulationManager::get_equip_param, (regulation, id), row),
        call_ensures(RegulationManager::get_goods, (regulation, id), goods),
    ensures
        row is Some <==> regulation.rows@.contains_key(id@),
        row is Some ==> row->0 == regulation.rows@[id@],
        goods is Some <==> row is Some && row->0 is Goods,
        goods is Some ==> row->0 == EquipParam::Goods(goods->0),
{
}

/// Zero is false, and every other integer is true.
pub proof fn law_integers_are_truth_values(value: u64, truth: bool)
    requires
        call_ensures(int_to_bool, (value,), truth),
    ensures
        truth <==> value > 0,
{
}

/// What is said of the DLC.
pub proof fn law_dlc_error_is_told(error: DlcError, message: String)
    requires
        call_ensures(DlcError::message, (&error,), message),
    ensures
        message@
            == "DLC is enabled for this seed, but this Elden Ring Archipelago client milestone only supports base-game seeds."@,
{
}

/// Every parameter ID of goods has an item ID.
pub proof fn law_goods_have_item_ids(goods_id: u32)
    requires
        goods_id < 0x1000_0000,
    ensures
        call_requires(goods_item_id, (goods_id,)),
{
}

/// Every buffer whose placeholders have rows that can be read can be granted.
pub proof fn law_readable_buffers_can_be_granted(
    items: &mut Vec<ItemBufferEntry>,
    regulation: &RegulationManager,
    save_data: &mut Option<SaveData>,
)
    requires
        forall|i: int|
            0 <= i < old(items)@.len() && is_placeholder_id((#[trigger] old(items)@[i]).id)
                ==> regulation.rows@.contains_key(old(items)@[i].id@)
                && regulation.rows@[old(items)@[i].id@] is Goods && is_readable_row(
                regulation.rows@[old(items)@[i].id@]->Goods_0,
            ),
    ensures
        call_requires(on_grant_items, (items, regulation, save_data)),
{
    assert forall|i: int| 0 <= i < old(items)@.len() implies has_meaning(
        regulation,
        (#[trigger] old(items)@[i]).id,
    ) by {
        assert(is_placeholder_id(old(items)@[i].id) ==> regulation.rows@.contains_key(
            old(items)@[i].id@,
        ));
    }
}

/// Every inventory whose placeholders have rows that can be read can be gone through.
pub proof fn law_readable_inventories_can_be_collected(
    core: &mut Core,
    now: u64,
    ids: &Vec<ItemId>,
    regulation: &RegulationManager,
    slot_data: Option<&SlotData>,
    save_data: &mut SaveData,
)
    requires
        forall|i: int|
            0 <= i < ids@.len() && is_placeholder_id(#[trigger] ids@[i])
                ==> regulation.rows@.contains_key(ids@[i]@) && regulation.rows@[ids@[i]@] is Goods
                && is_readable_row(regulation.rows@[ids@[i]@]->Goods_0),
    ensures
        call_requires(collect_placeholders, (ids, regulation, slot_data, save_data)),
        call_requires(
            Core::process_inventory_items,
            (core, now, ids, regulation, slot_data, save_data),
        ),
{
    assert forall|i: int| 0 <= i < ids@.len() implies has_meaning(
        regulation,
        #[trigger] ids@[i],
    ) by {
        assert(is_placeholder_id(ids@[i]) ==> regulation.rows@.contains_key(ids@[i]@));
    }
}

/// Received items can be gone through wherever all of them are mapped, whatever else is
/// the case.
pub proof fn law_mapped_items_can_be_granted(
    core: &mut Core,
    now: u64,
    settings: PopupSettings,
    client: Option<&Client>,
    loaded: bool,
    save_data: &mut Option<SaveData>,
)
    requires
        client is Some ==> forall|i: int|
            0 <= i < client->0.received_items@.len()
                ==> client->0.slot_data.ap_ids_to_item_ids@.contains_key(
                (#[trigger] client->0.received_items@[i]).item_id,
            ),
        (*old(save_data)) is Some ==> (*old(save_data))->0.items_granted < usize::MAX,
    ensures
        call_requires(
            Core::process_incoming_items,
            (core, now, settings, client, loaded, save_data),
        ),
{
}

/// An event flag is its number.
pub proof fn law_flags_are_numbers(flag: EventFlagId, id: u32)
    requires
        call_ensures(<u32 as From<EventFlagId>>::from, (flag,), id),
    ensures
        id == flag.0,
{
}

} // verus!
