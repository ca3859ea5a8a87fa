//! Checked locations: collecting them, and granting and showing what virtual ones
//! hold.

use vstd::prelude::*;
use vstd::string::StringExecFns;

use crate::client::{Client, ReceivedItem};
use crate::client_core::Core;
use crate::item::{
    has_meaning, lemma_locations_step, placeholder_locations, placeholder_row, EquipParamExt,
    RegulationManager,
};
use crate::item_id::{is_placeholder, ItemId, ItemIdExt};
use crate::save_data::SaveData;
use crate::slot_data::{collect_locations, expanded_locations, lemma_push_contains, SlotData};
use crate::text::{concat3, format_i64, integer_text};

verus! {

broadcast use vstd::std_specs::hash::group_hash_axioms;

/// A change to the player's inventory.
#[derive(Clone, Copy, Debug, PartialEq, Eq, Structural)]
pub enum InventoryChange {
    /// Give this many of an item.
    Give(ItemId, u32),
    /// Remove one of an item.
    RemoveOne(ItemId),
}

/// The changes that replace an item in the inventory: a placeholder is removed, and
/// the local item that it stands for, if there is one, is given instead.
pub open spec fn changes_for(regulation: &RegulationManager, id: ItemId) -> Seq<InventoryChange> {
    if !is_placeholder(id@) {
        Seq::empty()
    } else {
        match placeholder_row(regulation, id).local_item() {
            Some((raw, quantity)) => seq![
                InventoryChange::Give(ItemId::from_raw(raw), quantity),
                InventoryChange::RemoveOne(id),
            ],
            None => seq![InventoryChange::RemoveOne(id)],
        }
    }
}

/// The changes that replace the items `ids` in the inventory, in order.
pub open spec fn inventory_changes(
    regulation: &RegulationManager,
    ids: Seq<ItemId>,
) -> Seq<InventoryChange> {
    ids.flat_map(|id: ItemId| changes_for(regulation, id))
}

/// The locations that are checked once `locations` are, where a connection says which
/// virtual locations those check.
pub open spec fn with_virtual_locations(
    slot_data: Option<&SlotData>,
    locations: Set<i64>,
) -> Set<i64> {
    match slot_data {
        Some(data) => expanded_locations(locations, data.virtual_location_triggers@),
        None => locations,
    }
}

/// Finds the placeholders in the player's inventory and notes their locations as
/// checked, with the virtual locations that those check. Returns the changes that
/// replace the placeholders, in order.
pub fn collect_placeholders(
    ids: &Vec<ItemId>,
    regulation: &RegulationManager,
    slot_data: Option<&SlotData>,
    save_data: &mut SaveData,
) -> (changes: Vec<InventoryChange>)
    requires
        forall|i: int| 0 <= i < ids@.len() ==> has_meaning(regulation, #[trigger] ids@[i]),
    ensures
        changes@ == inventory_changes(regulation, ids@),
        final(save_data).same_but_locations(*old(save_data)),
        final(save_data).locations@ == with_virtual_locations(
            slot_data,
            old(save_data).locations@.union(placeholder_locations(regulation, ids@)),
        ),
{
    let ghost before = save_data.locations@;
    let mut changes: Vec<InventoryChange> = Vec::new();
    let mut index: usize = 0;
    while index < ids.len()
        invariant
            index <= ids@.len(),
            forall|i: int| 0 <= i < ids@.len() ==> has_meaning(regulation, #[trigger] ids@[i]),
            changes@ == inventory_changes(regulation, ids@.take(index as int)),
            save_data.same_but_locations(*old(save_data)),
            save_data.locations@ == before.union(
                placeholder_locations(regulation, ids@.take(index as int)),
            ),
        decreases ids@.len() - index,
    {
        let id = ids[index];
        proof {
            lemma_inventory_step(regulation, ids@, index as int);
            lemma_locations_step(regulation, ids@, index as int);
        }
        index = index + 1;
        if !id.is_archipelago() {
            continue;
        }
        let row = regulation.get_goods(id).unwrap();
        save_data.locations.insert(row.archipelago_location_id());
        if let Some((real_id, quantity)) = row.archipelago_item() {
            changes.push(InventoryChange::Give(real_id, quantity));
        }
        changes.push(InventoryChange::RemoveOne(id));
    }
    assert(ids@.take(index as int) =~= ids@);
    if let Some(data) = slot_data {
        data.expand_virtual_location_checks(&mut save_data.locations);
    }
    changes
}

/// What one item more adds to the changes for the items before it.
pub proof fn lemma_inventory_step(regulation: &RegulationManager, ids: Seq<ItemId>, index: int)
    requires
        0 <= index < ids.len(),
    ensures
        inventory_changes(regulation, ids.take(index + 1)) == inventory_changes(
            regulation,
            ids.take(index),
        ) + changes_for(regulation, ids[index]),
{
    ids.lemma_flat_map_take_append(|id: ItemId| changes_for(regulation, id), index);
}

/// An item that a virtual location grants to this player.
#[derive(Clone, Copy, Debug, PartialEq, Eq, Structural)]
pub struct LocalVirtualItemGrant {
    pub location_id: i64,
    pub ap_item_id: i64,
    pub er_id: ItemId,
    pub quantity: u32,
}

/// What a location grants to this player, if anything. An item that has no Elden Ring
/// item cannot be granted.
pub open spec fn local_grant(
    slot_data: &SlotData,
    location_id: i64,
) -> Option<LocalVirtualItemGrant> {
    match slot_data.local_virtual_location_items@.get(location_id) {
        Some(ap_item_id) => match slot_data.er_item(ap_item_id) {
            Some(er_id) => Some(
                LocalVirtualItemGrant {
                    location_id,
                    ap_item_id,
                    er_id,
                    quantity: slot_data.grant_quantity(ap_item_id),
                },
            ),
            None => None,
        },
        None => None,
    }
}

/// The grants that are owed: those of the locations `checked` without those that were
/// `granted` already.
pub open spec fn pending_grants(
    slot_data: &SlotData,
    checked: Set<i64>,
    granted: Set<i64>,
) -> Set<LocalVirtualItemGrant> {
    Set::new(
        |grant: LocalVirtualItemGrant|
            checked.contains(grant.location_id) && !granted.contains(grant.location_id)
                && local_grant(slot_data, grant.location_id) == Some(grant),
    )
}

/// The locations of the grants that are owed.
pub open spec fn pending_grant_locations(
    slot_data: &SlotData,
    checked: Set<i64>,
    granted: Set<i64>,
) -> Set<i64> {
    Set::new(
        |location: i64|
            checked.contains(location) && !granted.contains(location) && local_grant(
                slot_data,
                location,
            ) is Some,
    )
}

/// Returns what the checked locations grant to this player and have not granted yet,
/// in no particular order, and notes it as granted. Without a connection nothing is
/// granted.
pub fn grant_local_virtual_location_items(
    slot_data: Option<&SlotData>,
    save_data: &mut SaveData,
) -> (grants: Vec<LocalVirtualItemGrant>)
    ensures
        slot_data is None ==> grants@.len() == 0 && *final(save_data) == *old(save_data),
        slot_data matches Some(data) ==> {
            &&& grants@.no_duplicates()
            &&& grants@.to_set() == pending_grants(
                data,
                old(save_data).locations@,
                old(save_data).local_virtual_items_granted@,
            )
            &&& final(save_data).local_virtual_items_granted@ == old(
                save_data,
            ).local_virtual_items_granted@.union(
                pending_grant_locations(
                    data,
                    old(save_data).locations@,
                    old(save_data).local_virtual_items_granted@,
                ),
            )
            &&& final(save_data).items_granted == old(save_data).items_granted
            &&& final(save_data).locations == old(save_data).locations
            &&& final(save_data).seed == old(save_data).seed
            &&& final(save_data).foreign_virtual_items_notified == old(
                save_data,
            ).foreign_virtual_items_notified
        },
{
    let mut grants: Vec<LocalVirtualItemGrant> = Vec::new();
    let Some(data) = slot_data else {
        return grants;
    };
    let ghost before = *save_data;
    let ghost owed = pending_grants(
        data,
        before.locations@,
        before.local_virtual_items_granted@,
    );
    let ghost owed_at = pending_grant_locations(
        data,
        before.locations@,
        before.local_virtual_items_granted@,
    );
    let locations = collect_locations(&save_data.locations);
    let mut index: usize = 0;
    while index < locations.len()
        invariant
            index <= locations@.len(),
            owed == pending_grants(
                data,
                before.locations@,
                before.local_virtual_items_granted@,
            ),
            owed_at == pending_grant_locations(
                data,
                before.locations@,
                before.local_virtual_items_granted@,
            ),
            locations@.no_duplicates(),
            locations@.to_set() == before.locations@,
            grants@.no_duplicates(),
            forall|grant: LocalVirtualItemGrant| #[trigger]
                grants@.contains(grant) <==> owed.contains(grant)
                    && locations@.take(index as int).contains(grant.location_id),
            forall|location: i64| #[trigger]
                save_data.local_virtual_items_granted@.contains(location) <==> (
                before.local_virtual_items_granted@.contains(location) || (owed_at.contains(location)
                    && locations@.take(index as int).contains(location))),
            save_data.items_granted == before.items_granted,
            save_data.locations == before.locations,
            save_data.seed == before.seed,
            save_data.foreign_virtual_items_notified == before.foreign_virtual_items_notified,
        decreases locations@.len() - index,
    {
        let location_id = locations[index];
        let ghost granted_before = grants@;
        proof {
            lemma_take_contains(locations@, index as int);
        }
        index = index + 1;
        if save_data.local_virtual_items_granted.contains(&location_id) {
            continue;
        }
        let Some(ap_item_id) = data.local_virtual_location_item(location_id) else {
            continue;
        };
        let Some(er_id) = data.er_item_id(ap_item_id) else {
            continue;
        };
        let quantity = data.item_quantity(ap_item_id);
        let grant = LocalVirtualItemGrant { location_id, ap_item_id, er_id, quantity };
        grants.push(grant);
        save_data.local_virtual_items_granted.insert(location_id);
        proof {
            lemma_push_contains(granted_before, grant);
        }
    }
    proof {
        assert(locations@.take(index as int) =~= locations@);
    }
    grants
}

/// The notifications that are owed: the locations `checked` that sent something to
/// another player, without those of which this player was `notified` already, each with
/// its display item.
pub open spec fn pending_notifications(
    slot_data: &SlotData,
    checked: Set<i64>,
    notified: Set<i64>,
) -> Set<(i64, ItemId)> {
    Set::new(
        |notification: (i64, ItemId)|
            checked.contains(notification.0) && !notified.contains(notification.0)
                && slot_data.display_item(notification.0) == Some(notification.1),
    )
}

/// The locations of the notifications that are owed.
pub open spec fn pending_notification_locations(
    slot_data: &SlotData,
    checked: Set<i64>,
    notified: Set<i64>,
) -> Set<i64> {
    Set::new(
        |location: i64|
            checked.contains(location) && !notified.contains(location) && slot_data.display_item(
                location,
            ) is Some,
    )
}

/// Returns the checked locations that sent something to another player and whose
/// pickup was not shown yet, each with the item that shows it, in no particular order,
/// and notes them as shown. Without a connection nothing is shown.
pub fn notify_foreign_virtual_location_items(
    slot_data: Option<&SlotData>,
    save_data: &mut SaveData,
) -> (notifications: Vec<(i64, ItemId)>)
    ensures
        slot_data is None ==> notifications@.len() == 0 && *final(save_data) == *old(save_data),
        slot_data matches Some(data) ==> {
            &&& notifications@.no_duplicates()
            &&& notifications@.to_set() == pending_notifications(
                data,
                old(save_data).locations@,
                old(save_data).foreign_virtual_items_notified@,
            )
            &&& final(save_data).foreign_virtual_items_notified@ == old(
                save_data,
            ).foreign_virtual_items_notified@.union(
                pending_notification_locations(
                    data,
                    old(save_data).locations@,
                    old(save_data).foreign_virtual_items_notified@,
                ),
            )
            &&& final(save_data).items_granted == old(save_data).items_granted
            &&& final(save_data).locations == old(save_data).locations
            &&& final(save_data).seed == old(save_data).seed
            &&& final(save_data).local_virtual_items_granted == old(
                save_data,
            ).local_virtual_items_granted
        },
{
    let mut notifications: Vec<(i64, ItemId)> = Vec::new();
    let Some(data) = slot_data else {
        return notifications;
    };
    let ghost before = *save_data;
    let ghost owed = pending_notifications(
        data,
        before.locations@,
        before.foreign_virtual_items_notified@,
    );
    let ghost owed_at = pending_notification_locations(
        data,
        before.locations@,
        before.foreign_virtual_items_notified@,
    );
    let locations = collect_locations(&save_data.locations);
    let mut index: usize = 0;
    while index < locations.len()
        invariant
            index <= locations@.len(),
            owed == pending_notifications(
                data,
                before.locations@,
                before.foreign_virtual_items_notified@,
            ),
            owed_at == pending_notification_locations(
                data,
                before.locations@,
                before.foreign_virtual_items_notified@,
            ),
            locations@.no_duplicates(),
            locations@.to_set() == before.locations@,
            notifications@.no_duplicates(),
            forall|notification: (i64, ItemId)| #[trigger]
                notifications@.contains(notification) <==> owed.contains(notification)
                    && locations@.take(index as int).contains(notification.0),
            forall|location: i64| #[trigger]
                save_data.foreign_virtual_items_notified@.contains(location) <==> (
                before.foreign_virtual_items_notified@.contains(location) || (owed_at.contains(
                    location,
                ) && locations@.take(index as int).contains(location))),
            save_data.items_granted == before.items_granted,
            save_data.locations == before.locations,
            save_data.seed == before.seed,
            save_data.local_virtual_items_granted == before.local_virtual_items_granted,
        decreases locations@.len() - index,
    {
        let location_id = locations[index];
        let ghost notified_before = notifications@;
        proof {
            lemma_take_contains(locations@, index as int);
        }
        index = index + 1;
        if save_data.foreign_virtual_items_notified.contains(&location_id) {
            continue;
        }
        let Some(display_item) = data.virtual_location_display_item(location_id) else {
            continue;
        };
        notifications.push((location_id, display_item));
        save_data.foreign_virtual_items_notified.insert(location_id);
        proof {
            lemma_push_contains(notified_before, (location_id, display_item));
        }
    }
    proof {
        assert(locations@.take(index as int) =~= locations@);
    }
    notifications
}

/// What an update has to do for what is in the inventory and for the locations that
/// are checked.
pub struct InventoryUpdate {
    /// The changes that replace the placeholders in the inventory, in order.
    pub changes: Vec<InventoryChange>,
    /// What virtual locations grant to this player.
    pub grants: Vec<LocalVirtualItemGrant>,
    /// The virtual locations that sent something to another player, each with the item
    /// that shows it.
    pub notifications: Vec<(i64, ItemId)>,
    /// The checked locations, where they are to be sent to the server.
    pub locations: Option<Vec<i64>>,
}

impl Core {
    /// Whether more locations are checked than were sent in this session.
    pub open spec fn owes_locations(&self, locations: Set<i64>) -> bool {
        locations.len() > self.locations_sent
    }

    /// Returns the checked locations, in no particular order, if they are to be sent
    /// now: there is a connection, and some of them were not sent yet.
    pub fn locations_to_send(&self, save_data: &SaveData, connected: bool) -> (locations: Option<
        Vec<i64>,
    >)
        ensures
            locations is Some <==> connected && self.owes_locations(save_data.locations@),
            locations matches Some(ids) ==> ids@.no_duplicates() && ids@.to_set()
                == save_data.locations@ && ids@.len() == save_data.locations@.len(),
    {
        if save_data.locations.len() > self.locations_sent && connected {
            let ids = collect_locations(&save_data.locations);
            proof {
                ids@.unique_seq_to_set();
            }
            Some(ids)
        } else {
            None
        }
    }

    /// Takes note of the placeholders in the player's inventory: their locations, and
    /// the virtual ones that those check, are checked from now on. Returns what is to be
    /// done in turn: the placeholders are replaced, what virtual locations hold is
    /// granted or shown, and the server is told which locations are checked.
    /// `slot_data` is there where there is a connection. What is granted or shown counts
    /// as an item that was granted at the time `now`.
    pub fn process_inventory_items(
        &mut self,
        now: u64,
        ids: &Vec<ItemId>,
        regulation: &RegulationManager,
        slot_data: Option<&SlotData>,
        save_data: &mut SaveData,
    ) -> (update: InventoryUpdate)
        requires
            forall|i: int| 0 <= i < ids@.len() ==> has_meaning(regulation, #[trigger] ids@[i]),
        ensures
            update.changes@ == inventory_changes(regulation, ids@),
            final(save_data).items_granted == old(save_data).items_granted,
            final(save_data).seed == old(save_data).seed,
            final(save_data).locations@ == with_virtual_locations(
                slot_data,
                old(save_data).locations@.union(placeholder_locations(regulation, ids@)),
            ),
            slot_data is None ==> {
                &&& update.grants@.len() == 0
                &&& update.notifications@.len() == 0
                &&& final(save_data).local_virtual_items_granted == old(
                    save_data,
                ).local_virtual_items_granted
                &&& final(save_data).foreign_virtual_items_notified == old(
                    save_data,
                ).foreign_virtual_items_notified
            },
            slot_data matches Some(data) ==> {
                let checked = final(save_data).locations@;
                let granted = old(save_data).local_virtual_items_granted@;
                let notified = old(save_data).foreign_virtual_items_notified@;
                &&& update.grants@.no_duplicates()
                &&& update.grants@.to_set() == pending_grants(data, checked, granted)
                &&& final(save_data).local_virtual_items_granted@ == granted.union(
                    pending_grant_locations(data, checked, granted),
                )
                &&& update.notifications@.no_duplicates()
                &&& update.notifications@.to_set() == pending_notifications(
                    data,
                    checked,
                    notified,
                )
                &&& final(save_data).foreign_virtual_items_notified@ == notified.union(
                    pending_notification_locations(data, checked, notified),
                )
            },
            update.locations is Some <==> slot_data is Some && old(self).owes_locations(
                final(save_data).locations@,
            ),
            update.locations matches Some(sent) ==> sent@.no_duplicates() && sent@.to_set()
                == final(save_data).locations@ && sent@.len()
                == final(save_data).locations@.len(),
            *final(self) == (Core {
                last_item_time: if update.grants@.len() > 0 || update.notifications@.len() > 0 {
                    now
                } else {
                    old(self).last_item_time
                },
                ..*old(self)
            }),
    {
        let changes = collect_placeholders(ids, regulation, slot_data, save_data);
        let grants = grant_local_virtual_location_items(slot_data, save_data);
        let notifications = notify_foreign_virtual_location_items(slot_data, save_data);
        let locations = self.locations_to_send(save_data, slot_data.is_some());
        if grants.len() > 0 || notifications.len() > 0 {
            self.last_item_time = now;
        }
        InventoryUpdate { changes, grants, notifications, locations }
    }

    /// Notes that the given locations, which were all that were checked then, were sent.
    pub fn note_locations_sent(&mut self, sent: &Vec<i64>)
        ensures
            final(self).locations_sent == sent@.len(),
            *final(self) == (Core { locations_sent: final(self).locations_sent, ..*old(self) }),
    {
        self.locations_sent = sent.len();
    }
}

/// The name of something, or a stand-in that holds its ID where it has none.
pub open spec fn name_or_id(name: Option<Seq<char>>, kind: Seq<char>, id: i64) -> Seq<char> {
    match name {
        Some(text) => text,
        None => kind + integer_text(id as int) + ">"@,
    }
}

/// What a text that may be missing says.
pub open spec fn text_of(text: Option<&str>) -> Option<Seq<char>> {
    match text {
        Some(t) => Some(t@),
        None => None,
    }
}

/// Returns how an item is called in the log, given its name where it has one.
pub fn item_label(ap_item_id: i64, name: Option<&str>) -> (label: String)
    ensures
        label@ == name_or_id(text_of(name), "<item #"@, ap_item_id),
{
    match name {
        Some(name) => name.to_owned(),
        None => concat3("<item #", format_i64(ap_item_id).as_str(), ">"),
    }
}

/// Returns how a location is called in the log, given its name where it has one.
pub fn location_label(location_id: i64, name: Option<&str>) -> (label: String)
    ensures
        label@ == name_or_id(text_of(name), "<location #"@, location_id),
{
    match name {
        Some(name) => name.to_owned(),
        None => concat3("<location #", format_i64(location_id).as_str(), ">"),
    }
}

/// `f` names locations as `names` does.
pub open spec fn names_as<F: Fn(i64) -> Option<String>>(
    f: F,
    names: spec_fn(i64) -> Option<Seq<char>>,
) -> bool {
    forall|id: i64, name: Option<String>| #[trigger]
        call_ensures(f, (id,), name) ==> (match name {
            Some(text) => names(id) == Some(text@),
            None => names(id) is None,
        })
}

/// The name of a location, after that of the location that triggers it where that has
/// one.
pub open spec fn triggered_name(trigger: Option<Seq<char>>, location: Seq<char>) -> Seq<char> {
    match trigger {
        Some(text) => text + " ["@ + location + "]"@,
        None => location,
    }
}

/// Whether `name` is how the location of a received item is called, where `f` names
/// locations.
pub open spec fn answers_name<F: Fn(i64) -> Option<String>>(
    client: &Client,
    item: &ReceivedItem,
    f: F,
    name: Seq<char>,
) -> bool {
    forall|names: spec_fn(i64) -> Option<Seq<char>>| #[trigger]
        names_as(f, names) ==> if item.sender_team == client.team && item.sender_slot
            == client.slot && (exists|t: i64| #[trigger]
            client.slot_data.triggers(t, item.location_id)) {
            exists|t: i64| #[trigger]
                client.slot_data.triggers(t, item.location_id) && name == triggered_name(
                    names(t),
                    item.location_name@,
                )
        } else {
            name == item.location_name@
        }
}

/// Returns how the location of a received item is called in the log. One that this
/// player checked by way of another location is called by both names.
pub fn received_item_location_display_name(
    client: &Client,
    item: &ReceivedItem,
    location_name: &impl Fn(i64) -> Option<String>,
) -> (name: String)
    requires
        forall|id: i64| #[trigger] call_requires(*location_name, (id,)),
    ensures
        answers_name(client, item, *location_name, name@),
{
    if item.sender_team == client.team && item.sender_slot == client.slot {
        if let Some(trigger_id) = client.slot_data.virtual_location_trigger(item.location_id) {
            if let Some(trigger_name) = location_name(trigger_id) {
                let mut name = trigger_name;
                name.append(" [");
                name.append(item.location_name.as_str());
                name.append("]");
                return name;
            }
        }
    }
    item.location_name.clone()
}

/// What a virtual location holds is granted once: after a grant nothing is owed until
/// another location is checked.
pub proof fn law_virtual_items_are_granted_once(
    slot_data: &SlotData,
    checked: Set<i64>,
    granted: Set<i64>,
)
    ensures
        ({
            let later = granted.union(pending_grant_locations(slot_data, checked, granted));
            pending_grants(slot_data, checked, later) == Set::<LocalVirtualItemGrant>::empty()
        }),
{
}

/// What a virtual location sent is shown once: after it was shown nothing is owed until
/// another location is checked.
pub proof fn law_notifications_are_shown_once(
    slot_data: &SlotData,
    checked: Set<i64>,
    notified: Set<i64>,
)
    ensures
        ({
            let later = notified.union(
                pending_notification_locations(slot_data, checked, notified),
            );
            pending_notifications(slot_data, checked, later) == Set::<(i64, ItemId)>::empty()
        }),
{
}

/// A location that is checked stays checked.
pub proof fn law_checked_locations_only_grow(
    slot_data: Option<&SlotData>,
    checked: Set<i64>,
    found: Set<i64>,
)
    ensures
        checked.subset_of(with_virtual_locations(slot_data, checked.union(found))),
        found.subset_of(with_virtual_locations(slot_data, checked.union(found))),
{
}

/// The items that `changes` remove, in order.
pub open spec fn removals(changes: Seq<InventoryChange>) -> Seq<ItemId> {
    changes.filter_map(
        |change: InventoryChange|
            match change {
                InventoryChange::RemoveOne(id) => Some(id),
                _ => None,
            },
    )
}

/// Every placeholder in the inventory is removed once, and nothing else is.
pub proof fn law_placeholders_are_removed(regulation: &RegulationManager, ids: Seq<ItemId>)
    ensures
        removals(inventory_changes(regulation, ids)) == ids.filter(
            |id: ItemId| is_placeholder(id@),
        ),
    decreases ids.len(),
{
    reveal(Seq::filter);
    let changes = inventory_changes(regulation, ids);
    if ids.len() > 0 {
        let last = ids.len() - 1;
        let rest = ids.drop_last();
        law_placeholders_are_removed(regulation, rest);
        lemma_inventory_step(regulation, ids, last);
        assert(ids.take(last + 1) =~= ids);
        let before = inventory_changes(regulation, rest);
        if is_placeholder(ids[last]@) {
            match placeholder_row(regulation, ids[last]).local_item() {
                Some((raw, quantity)) => {
                    let given = before.push(
                        InventoryChange::Give(ItemId::from_raw(raw), quantity),
                    );
                    assert(changes.drop_last() =~= given);
                    assert(given.drop_last() =~= before);
                    assert(removals(given) == removals(before));
                },
                None => {
                    assert(changes.drop_last() =~= before);
                },
            }
        }
    }
}

/// Once all checked locations were sent they are not sent again until another one is
/// checked, and then they are.
pub proof fn law_new_locations_are_sent(core: Core, sent: Set<i64>, checked: Set<i64>)
    requires
        core.locations_sent == sent.len(),
        sent.subset_of(checked),
    ensures
        core.owes_locations(checked) <==> checked != sent,
{
    assert(checked =~= Set::<i64>::full().intersect(checked));
    if checked.subset_of(sent) {
        assert(checked =~= sent);
    } else {
        let location = choose|location: i64|
            #![trigger checked.contains(location)]
            checked.contains(location) && !sent.contains(location);
        vstd::set_lib::lemma_len_subset(sent, checked.remove(location));
    }
}

/// The first `index + 1` of `ids` are the first `index` and one more, which is new
/// where none occurs twice.
proof fn lemma_take_contains(ids: Seq<i64>, index: int)
    requires
        0 <= index < ids.len(),
    ensures
        forall|id: i64| #[trigger]
            ids.take(index + 1).contains(id) <==> ids.take(index).contains(id) || id == ids[index],
        ids.no_duplicates() ==> !ids.take(index).contains(ids[index]),
{
    assert forall|id: i64| #[trigger]
        ids.take(index + 1).contains(id) <==> ids.take(index).contains(id) || id == ids[index] by {
        if id == ids[index] {
            assert(ids.take(index + 1)[index] == id);
        }
        if ids.take(index + 1).contains(id) {
            let longer = ids.take(index + 1);
            let i = choose|i: int| 0 <= i < longer.len() && longer[i] == id;
            assert(i < index ==> ids.take(index)[i] == id);
        }
    }
}

} // verus!
