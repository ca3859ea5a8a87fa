//! Granting the items that the server sent.

use vstd::prelude::*;

use crate::client::{Client, ReceivedItem};
use crate::client_core::Core;
use crate::item_id::ItemId;
use crate::region_lock::{
    are_goods_ids, companion_region_lock_goods, goods_for_name, goods_item_ids, goods_items,
};
use crate::save_data::SaveData;
use crate::slot_data::SlotData;

verus! {

broadcast use vstd::std_specs::hash::group_hash_axioms;

/// The least time between two grants of received items, in nanoseconds.
pub const RECEIVED_ITEM_GRANT_INTERVAL: u64 = 33_000_000;

/// Which received items show a pickup pop-up.
#[derive(Clone, Copy, Debug, PartialEq, Eq, Structural)]
pub struct PopupSettings {
    /// All of them do.
    pub show_item_popups: bool,
    /// Progression items do.
    pub show_progression_item_popups: bool,
}

/// An item to grant to the player.
#[derive(Clone, Copy, Debug, PartialEq, Eq, Structural)]
pub struct ReceivedGrant {
    pub id: ItemId,
    pub quantity: u32,
    /// Whether its pickup shows a pop-up.
    pub show_popup: bool,
}

/// Whether the item at `index` is the first of `items` that is not granted yet.
pub open spec fn is_next(items: Seq<ReceivedItem>, items_granted: usize, index: int) -> bool {
    &&& 0 <= index < items.len()
    &&& items[index].index >= items_granted
    &&& forall|i: int| 0 <= i < index ==> (#[trigger] items[i]).index < items_granted
}

/// Whether all of `items` are granted.
pub open spec fn all_granted(items: Seq<ReceivedItem>, items_granted: usize) -> bool {
    forall|i: int| 0 <= i < items.len() ==> (#[trigger] items[i]).index < items_granted
}

/// Returns which of the received items is the first that is not granted yet.
pub fn next_received_item(
    items: &Vec<ReceivedItem>,
    items_granted: usize,
) -> (next: Option<usize>)
    ensures
        next is None <==> all_granted(items@, items_granted),
        next matches Some(index) ==> is_next(items@, items_granted, index as int),
{
    let mut index: usize = 0;
    while index < items.len()
        invariant
            index <= items@.len(),
            forall|i: int| 0 <= i < index ==> (#[trigger] items@[i]).index < items_granted,
        decreases items@.len() - index,
    {
        if items[index].index >= items_granted {
            return Some(index);
        }
        index = index + 1;
    }
    None
}

/// Whether the pickup of a received item shows a pop-up.
pub open spec fn shows_popup(
    slot_data: &SlotData,
    settings: PopupSettings,
    ap_item_id: i64,
) -> bool {
    settings.show_item_popups || (settings.show_progression_item_popups
        && slot_data.non_deprioritized_progression_item_ids@.contains(ap_item_id))
}

/// What is granted for a received item: the item itself, and one of each of the goods
/// that come with it if it is a region lock.
pub open spec fn grants_for(
    slot_data: &SlotData,
    settings: PopupSettings,
    item: ReceivedItem,
) -> Seq<ReceivedGrant> {
    let show_popup = shows_popup(slot_data, settings, item.item_id);
    seq![
        ReceivedGrant {
            id: slot_data.er_item(item.item_id)->0,
            quantity: slot_data.grant_quantity(item.item_id),
            show_popup,
        },
    ] + companion_grants(goods_items(goods_for_name(item.item_name@)), show_popup)
}

/// One of each of `ids`.
pub open spec fn companion_grants(ids: Seq<ItemId>, show_popup: bool) -> Seq<ReceivedGrant> {
    ids.map_values(|id: ItemId| ReceivedGrant { id, quantity: 1, show_popup })
}

/// Whether the first item that is not granted yet, if there is one, is granted by
/// `grants` and counted in `after`.
pub open spec fn grants_next(
    client: &Client,
    settings: PopupSettings,
    before: SaveData,
    grants: Seq<ReceivedGrant>,
    after: Option<SaveData>,
) -> bool {
    forall|i: int| #[trigger]
        is_next(client.received_items@, before.items_granted, i) ==> grants == grants_for(
            &client.slot_data,
            settings,
            client.received_items@[i],
        ) && after == Some(
            SaveData { items_granted: (before.items_granted + 1) as usize, ..before },
        )
}

/// Returns what is granted for a received item.
pub fn received_item_grants(
    slot_data: &SlotData,
    settings: PopupSettings,
    item: &ReceivedItem,
) -> (grants: Vec<ReceivedGrant>)
    requires
        slot_data.er_item(item.item_id) is Some,
    ensures
        grants@ == grants_for(slot_data, settings, *item),
{
    let show_popup = settings.show_item_popups || (settings.show_progression_item_popups
        && slot_data.non_deprioritized_progression_item_ids.contains(&item.item_id));
    let id = slot_data.er_item_id(item.item_id).unwrap();
    let quantity = slot_data.item_quantity(item.item_id);
    let mut grants: Vec<ReceivedGrant> = Vec::new();
    grants.push(ReceivedGrant { id, quantity, show_popup });
    let companion_goods = companion_region_lock_goods(item.item_name.as_str());
    let companions = goods_item_ids(&companion_goods);
    let ghost first = grants@;
    let mut index: usize = 0;
    while index < companions.len()
        invariant
            index <= companions@.len(),
            grants@ == first + companion_grants(companions@.take(index as int), show_popup),
        decreases companions@.len() - index,
    {
        grants.push(ReceivedGrant { id: companions[index], quantity: 1, show_popup });
        index = index + 1;
    }
    grants
}

impl Core {
    /// How long ago the last item was granted.
    pub open spec fn item_age(&self, now: u64) -> int {
        if now >= self.last_item_time {
            now - self.last_item_time
        } else {
            0
        }
    }

    /// Whether an item can be granted now: there is a connection, a world and a save,
    /// and the last grant is long enough ago.
    pub open spec fn can_grant(
        &self,
        now: u64,
        client: Option<&Client>,
        item_manager_loaded: bool,
        save_data: Option<SaveData>,
    ) -> bool {
        client is Some && item_manager_loaded && save_data is Some && self.item_age(now)
            >= RECEIVED_ITEM_GRANT_INTERVAL
    }

    /// Returns whether the last grant is long enough ago for another one.
    pub fn is_grant_due(&self, now: u64) -> (due: bool)
        ensures
            due == (self.item_age(now) >= RECEIVED_ITEM_GRANT_INTERVAL),
    {
        now.saturating_sub(self.last_item_time) >= RECEIVED_ITEM_GRANT_INTERVAL
    }

    /// Picks the next item out of those that the server sent, if one can be granted
    /// now, and counts it as granted at the time `now`. Returns what is to be granted for
    /// it, in order. This also initializes the save data for a new file, once there is a
    /// connection and a world.
    ///
    /// Avoids granting multiple received items in one burst, but keeps release
    /// queues moving at a reasonable pace.
    pub fn process_incoming_items(
        &mut self,
        now: u64,
        settings: PopupSettings,
        client: Option<&Client>,
        item_manager_loaded: bool,
        save_data: &mut Option<SaveData>,
    ) -> (grants: Vec<ReceivedGrant>)
        requires
            old(self).can_grant(now, client, item_manager_loaded, *old(save_data))
                ==> forall|i: int| #[trigger]
                is_next(
                    client->0.received_items@,
                    (*old(save_data))->0.items_granted,
                    i,
                ) ==> client->0.slot_data.er_item(client->0.received_items@[i].item_id) is Some && (
                *old(save_data))->0.items_granted < usize::MAX,
        ensures
            client is Some && item_manager_loaded && (*old(save_data)) is None ==> (
            *final(save_data) matches Some(data) && data.is_fresh()),
            !(client is Some && item_manager_loaded) && (*old(save_data)) is None ==> (
            *final(save_data)) is None,
            !old(self).can_grant(now, client, item_manager_loaded, *old(save_data)) ==> grants@
                == Seq::<ReceivedGrant>::empty() && ((*old(save_data)) is Some
                ==> *final(save_data) == *old(save_data)),
            old(self).can_grant(now, client, item_manager_loaded, *old(save_data)) ==> {
                let items = client->0.received_items@;
                let before = (*old(save_data))->0;
                &&& all_granted(items, before.items_granted) ==> grants@ == Seq::<
                    ReceivedGrant,
                >::empty() && *final(save_data) == *old(save_data)
                &&& grants_next(
                    client->0,
                    settings,
                    before,
                    grants@,
                    *final(save_data),
                )
            },
            *final(self) == (Core {
                last_item_time: if grants@.len() > 0 {
                    now
                } else {
                    old(self).last_item_time
                },
                ..*old(self)
            }),
    {
        let Some(client) = client else {
            return Vec::new();
        };
        if !item_manager_loaded {
            return Vec::new();
        }
        let Some(data) = save_data else {
            *save_data = Some(SaveData::new());
            return Vec::new();
        };
        if !self.is_grant_due(now) {
            return Vec::new();
        }
        match next_received_item(&client.received_items, data.items_granted) {
            Some(index) => {
                let grants = received_item_grants(
                    &client.slot_data,
                    settings,
                    &client.received_items[index],
                );
                data.items_granted = data.items_granted + 1;
                self.last_item_time = now;
                grants
            },
            None => Vec::new(),
        }
    }
}

/// Within the grant interval after a grant nothing more is granted.
pub proof fn law_grants_are_spaced(
    core: Core,
    now: u64,
    client: Option<&Client>,
    item_manager_loaded: bool,
    save_data: Option<SaveData>,
)
    requires
        now < core.last_item_time + RECEIVED_ITEM_GRANT_INTERVAL,
    ensures
        !core.can_grant(now, client, item_manager_loaded, save_data),
{
}

/// Where the server numbers the items that it sent from zero on, the next one to
/// grant is the one whose number is the count of those granted. So each is granted
/// once, in the order in which it was sent.
pub proof fn law_items_are_granted_in_order(
    items: Seq<ReceivedItem>,
    items_granted: usize,
    index: int,
)
    requires
        forall|i: int| 0 <= i < items.len() ==> (#[trigger] items[i]).index == i,
    ensures
        is_next(items, items_granted, index) <==> index == items_granted < items.len(),
        all_granted(items, items_granted) <==> items.len() <= items_granted,
{
    if 0 <= items_granted < items.len() {
        assert(items[items_granted as int].index == items_granted);
    }
}

} // verus!
