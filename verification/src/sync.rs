//! Keeping event flags in step with what the player owns and has checked.

use std::collections::HashMap;

use vstd::prelude::*;
use vstd::std_specs::iter::IteratorSpec;

use crate::client::Client;
use crate::inventory::{has_goods_in_inventory, inventory_holds, InventoryEntry};
use crate::item_id::{param_id_of, ItemId};
use crate::region_lock::{
    are_goods_ids, companion_goods_for_er_lock_id, goods_for_param_id, goods_item_ids, goods_items,
};
use crate::save_data::SaveData;
use crate::slot_data::{answers_as, collect_locations, EventFlagId, SlotData};

verus! {

broadcast use vstd::std_specs::hash::group_hash_axioms;

/// Returns the entries of a map to event flags, each once, in no particular order.
pub fn flag_entries(flags: &HashMap<i64, EventFlagId>) -> (entries: Vec<(i64, EventFlagId)>)
    ensures
        entries@.no_duplicates(),
        entries@.to_set() == flags@.kv_pairs(),
{
    let mut entries: Vec<(i64, EventFlagId)> = Vec::new();
    let pairs = flags.iter();
    let ghost all = pairs.remaining();
    for pair in iter: pairs
        invariant
            iter.seq() == all,
            entries@ == all.unref().take(iter.index()),
    {
        entries.push((*pair.0, *pair.1));
    }
    assert(entries@ =~= all.unref());
    entries
}

/// Whether the marker of a location is shown: it is not checked yet, and its
/// requirement is met.
pub open spec fn marker_visible(
    client: &Client,
    inventory: Option<&Vec<InventoryEntry>>,
    checked: spec_fn(i64) -> bool,
    location_id: i64,
) -> bool {
    !checked(location_id) && client.slot_data.marker_met(
        client.received_ids(),
        inventory,
        checked,
        location_id,
    )
}

/// What a flag is to be set to so that it says `visible`, where `flag_value` is what
/// it is now, if it can be read.
pub open spec fn marker_write(visible: bool, flag_value: Option<bool>) -> Option<bool> {
    if flag_value == Some(visible) {
        None
    } else {
        Some(visible)
    }
}

/// Whether `write` answers what the flag of a location's marker is to be set to, where `f`
/// says which locations are checked.
pub open spec fn answers_marker_write<F: Fn(i64) -> bool>(
    client: &Client,
    inventory: Option<&Vec<InventoryEntry>>,
    f: F,
    location_id: i64,
    flag_value: Option<bool>,
    write: Option<bool>,
) -> bool {
    forall|checked: spec_fn(i64) -> bool| #[trigger]
        answers_as(f, checked) ==> write == marker_write(
            marker_visible(client, inventory, checked, location_id),
            flag_value,
        )
}

/// Returns what the flag of a location's marker is to be set to, if it is not that
/// already. `flag_value` is what the flag is now, if it can be read.
pub fn sync_priority_location_marker(
    client: &Client,
    inventory: Option<&Vec<InventoryEntry>>,
    is_location_checked: &impl Fn(i64) -> bool,
    location_id: i64,
    flag_value: Option<bool>,
) -> (write: Option<bool>)
    requires
        forall|id: i64| #[trigger] call_requires(*is_location_checked, (id,)),
    ensures
        answers_marker_write(
            client,
            inventory,
            *is_location_checked,
            location_id,
            flag_value,
            write,
        ),
{
    let received = client.received_item_ids();
    let visible = !is_location_checked(location_id) && client.slot_data.marker_requirement_met(
        &received,
        inventory,
        is_location_checked,
        location_id,
    );
    match flag_value {
        Some(value) => if value == visible {
            None
        } else {
            Some(visible)
        },
        None => Some(visible),
    }
}

/// Once a marker's flag is written, it says whether the marker is shown, and there is
/// nothing more to write while that stays so.
pub proof fn law_marker_flag_settles(visible: bool, flag: bool)
    ensures
        ({
            let after = match marker_write(visible, Some(flag)) {
                Some(written) => written,
                None => flag,
            };
            after == visible && marker_write(visible, Some(after)) is None
        }),
{
}

/// The event flags once one of them is written. A flag that cannot be reached is not
/// among them, and writing it changes nothing.
pub open spec fn with_flag(
    flags: Map<EventFlagId, bool>,
    flag: EventFlagId,
    value: bool,
) -> Map<EventFlagId, bool> {
    if flags.contains_key(flag) {
        flags.insert(flag, value)
    } else {
        flags
    }
}

/// The event flags after the flags of all `entries` were brought in step in order, where
/// `visible` says of each whether its marker is shown.
pub open spec fn marker_flags_after(
    entries: Seq<(i64, EventFlagId)>,
    visible: Seq<bool>,
    flags: Map<EventFlagId, bool>,
) -> Map<EventFlagId, bool>
    decreases entries.len(),
{
    if entries.len() == 0 {
        flags
    } else {
        let before = marker_flags_after(entries.drop_last(), visible.drop_last(), flags);
        let flag = entries.last().1;
        match marker_write(visible.last(), before.get(flag)) {
            Some(value) => with_flag(before, flag, value),
            None => before,
        }
    }
}

/// After an update over all markers, each flag says whether its marker is shown, or that
/// of the last one where several markers share the flag. No other flag changes.
pub proof fn law_marker_flags_are_in_step(
    entries: Seq<(i64, EventFlagId)>,
    visible: Seq<bool>,
    flags: Map<EventFlagId, bool>,
)
    requires
        visible.len() == entries.len(),
    ensures
        marker_flags_after(entries, visible, flags).dom() == flags.dom(),
        forall|i: int|
            0 <= i < entries.len() && flags.contains_key((#[trigger] entries[i]).1) && (forall|j: int|
                i < j < entries.len() ==> (#[trigger] entries[j]).1 != entries[i].1)
                ==> marker_flags_after(entries, visible, flags)[entries[i].1] == visible[i],
        forall|flag: EventFlagId|
            flags.contains_key(flag) && (forall|i: int|
                0 <= i < entries.len() ==> (#[trigger] entries[i]).1 != flag)
                ==> #[trigger] marker_flags_after(entries, visible, flags)[flag] == flags[flag],
    decreases entries.len(),
{
    let after = marker_flags_after(entries, visible, flags);
    lemma_marker_flag_domain(entries, visible, flags);
    assert forall|i: int|
        0 <= i < entries.len() && flags.contains_key((#[trigger] entries[i]).1) && (forall|j: int|
            i < j < entries.len() ==> (#[trigger] entries[j]).1 != entries[i].1) implies
        after[entries[i].1] == visible[i] by {
        lemma_last_marker_counts(entries, visible, flags, i);
    }
    assert forall|flag: EventFlagId|
        flags.contains_key(flag) && (forall|i: int|
            0 <= i < entries.len() ==> (#[trigger] entries[i]).1 != flag) implies
        #[trigger] after[flag] == flags[flag] by {
        lemma_unnamed_flag_stays(entries, visible, flags, flag);
    }
}

/// No flag comes or goes.
proof fn lemma_marker_flag_domain(
    entries: Seq<(i64, EventFlagId)>,
    visible: Seq<bool>,
    flags: Map<EventFlagId, bool>,
)
    ensures
        marker_flags_after(entries, visible, flags).dom() == flags.dom(),
    decreases entries.len(),
{
    if entries.len() > 0 {
        lemma_marker_flag_domain(entries.drop_last(), visible.drop_last(), flags);
        assert(marker_flags_after(entries, visible, flags).dom() =~= flags.dom());
    }
}

/// A flag that no marker names stays as it is.
proof fn lemma_unnamed_flag_stays(
    entries: Seq<(i64, EventFlagId)>,
    visible: Seq<bool>,
    flags: Map<EventFlagId, bool>,
    flag: EventFlagId,
)
    requires
        forall|i: int| 0 <= i < entries.len() ==> (#[trigger] entries[i]).1 != flag,
    ensures
        marker_flags_after(entries, visible, flags)[flag] == flags[flag],
    decreases entries.len(),
{
    if entries.len() > 0 {
        assert(entries[entries.len() - 1].1 != flag);
        lemma_unnamed_flag_stays(entries.drop_last(), visible.drop_last(), flags, flag);
    }
}

/// The last marker that names a flag decides on it.
proof fn lemma_last_marker_counts(
    entries: Seq<(i64, EventFlagId)>,
    visible: Seq<bool>,
    flags: Map<EventFlagId, bool>,
    index: int,
)
    requires
        visible.len() == entries.len(),
        0 <= index < entries.len(),
        flags.contains_key(entries[index].1),
        forall|j: int| index < j < entries.len() ==> (#[trigger] entries[j]).1 != entries[index].1,
    ensures
        marker_flags_after(entries, visible, flags)[entries[index].1] == visible[index],
    decreases entries.len(),
{
    let last = entries.len() - 1;
    lemma_marker_flag_domain(entries.drop_last(), visible.drop_last(), flags);
    if index < last {
        assert(entries[last].1 != entries[index].1);
        lemma_last_marker_counts(entries.drop_last(), visible.drop_last(), flags, index);
    }
}

/// Whether no two of `entries` name the same flag.
pub open spec fn distinct_flags(entries: Seq<(i64, EventFlagId)>) -> bool {
    forall|i: int, j: int|
        0 <= i < j < entries.len() ==> (#[trigger] entries[i]).1 != (#[trigger] entries[j]).1
}

/// Where no two markers share a flag, after an update over all of them each flag says
/// whether its marker is shown.
pub proof fn law_distinct_markers_are_shown(
    entries: Seq<(i64, EventFlagId)>,
    visible: Seq<bool>,
    flags: Map<EventFlagId, bool>,
)
    requires
        visible.len() == entries.len(),
        distinct_flags(entries),
    ensures
        forall|i: int|
            0 <= i < entries.len() && flags.contains_key((#[trigger] entries[i]).1)
                ==> marker_flags_after(entries, visible, flags)[entries[i].1] == visible[i],
{
    law_marker_flags_are_in_step(entries, visible, flags);
}

/// Whether a virtual location whose item this player was granted holds the item.
pub open spec fn granted_virtually(
    slot_data: &SlotData,
    save_data: Option<SaveData>,
    ap_item_id: i64,
) -> bool {
    save_data matches Some(data) && exists|location: i64| #[trigger]
        data.local_virtual_items_granted@.contains(location)
            && slot_data.local_virtual_location_items@.get(location) == Some(ap_item_id)
}

/// Returns whether a virtual location whose item this player was granted holds the
/// given item.
fn is_granted_virtually(
    slot_data: &SlotData,
    save_data: &Option<SaveData>,
    ap_item_id: i64,
) -> (granted: bool)
    ensures
        granted == granted_virtually(slot_data, *save_data, ap_item_id),
{
    let Some(data) = save_data else {
        return false;
    };
    let locations = collect_locations(&data.local_virtual_items_granted);
    let mut index: usize = 0;
    while index < locations.len()
        invariant
            index <= locations@.len(),
            *save_data == Some(*data),
            locations@.to_set() == data.local_virtual_items_granted@,
            forall|i: int|
                0 <= i < index ==> slot_data.local_virtual_location_items@.get(
                    #[trigger] locations@[i],
                ) != Some(ap_item_id),
        decreases locations@.len() - index,
    {
        if let Some(item) = slot_data.local_virtual_location_item(locations[index]) {
            if item == ap_item_id {
                assert(locations@.to_set().contains(locations@[index as int]));
                return true;
            }
        }
        index = index + 1;
    }
    false
}

/// Whether the player owns a region-lock item: the server sent it, a virtual location
/// granted it, or it is in the inventory.
pub open spec fn owns_region_lock(
    client: &Client,
    save_data: Option<SaveData>,
    inventory: Option<&Vec<InventoryEntry>>,
    ap_item_id: i64,
) -> bool {
    client.received_ids().contains(ap_item_id) || granted_virtually(
        &client.slot_data,
        save_data,
        ap_item_id,
    ) || client.slot_data.er_item_held(inventory, ap_item_id)
}

/// The items that come with a region lock and are not in the inventory yet.
pub open spec fn missing_companions(
    slot_data: &SlotData,
    inventory: Option<&Vec<InventoryEntry>>,
    ap_item_id: i64,
) -> Seq<ItemId> {
    match slot_data.er_item(ap_item_id) {
        Some(er_id) => goods_items(goods_for_param_id(param_id_of(er_id@))).filter(
            |id: ItemId| !inventory_holds(inventory, id),
        ),
        None => Seq::empty(),
    }
}

/// Whether the flag of a region lock is to be set, where `flag_value` is what it is
/// now, if it can be read.
pub open spec fn sets_region_flag(owned: bool, flag_value: Option<bool>) -> bool {
    owned && flag_value != Some(true)
}

/// What has to be done for one region lock.
pub struct RegionLockStep {
    /// Whether to set its flag. No flag is ever cleared.
    pub set_flag: bool,
    /// The items to grant one of each of, in order.
    pub companions: Vec<ItemId>,
}

/// Returns what has to be done for a region-lock item, where `flag_value` is what its
/// flag is now, if it can be read.
///
/// Region locks are one-way: the flag is only ever set once the item is owned, never
/// cleared. Clearing on a transient "not owned" would re-lock an already-opened region.
pub fn sync_region_lock(
    client: &Client,
    save_data: &Option<SaveData>,
    inventory: Option<&Vec<InventoryEntry>>,
    item_manager_loaded: bool,
    ap_item_id: i64,
    flag_value: Option<bool>,
) -> (step: RegionLockStep)
    ensures
        step.set_flag == sets_region_flag(
            owns_region_lock(client, *save_data, inventory, ap_item_id),
            flag_value,
        ),
        step.companions@ == (if step.set_flag && item_manager_loaded {
            missing_companions(&client.slot_data, inventory, ap_item_id)
        } else {
            Seq::empty()
        }),
{
    let received = client.received_item_ids();
    let owned = crate::slot_data::contains_id(&received, ap_item_id) || is_granted_virtually(
        &client.slot_data,
        save_data,
        ap_item_id,
    ) || client.slot_data.has_er_inventory_item(inventory, ap_item_id);
    let already_set = match flag_value {
        Some(value) => value,
        None => false,
    };
    if !owned || already_set {
        return RegionLockStep { set_flag: false, companions: Vec::new() };
    }
    let mut companions: Vec<ItemId> = Vec::new();
    if item_manager_loaded {
        if let Some(er_id) = client.slot_data.er_item_id(ap_item_id) {
            let goods = companion_goods_for_er_lock_id(er_id.param_id());
            companions = not_held(inventory, &goods_item_ids(&goods));
        }
    }
    RegionLockStep { set_flag: true, companions }
}

/// What the flag of a region lock is after a number of updates, where `owned` says of
/// each whether the item was owned then, and `flag` is what it was before.
pub open spec fn region_flag_after(owned: Seq<bool>, flag: bool) -> bool
    decreases owned.len(),
{
    if owned.len() == 0 {
        flag
    } else {
        let before = region_flag_after(owned.drop_last(), flag);
        before || sets_region_flag(owned.last(), Some(before))
    }
}

/// A region is open from the first update on which its item is owned, and stays open
/// whatever is owned later.
pub proof fn law_region_stays_open(owned: Seq<bool>, flag: bool)
    ensures
        region_flag_after(owned, flag) <==> flag || owned.contains(true),
    decreases owned.len(),
{
    if owned.len() > 0 {
        let earlier = owned.drop_last();
        law_region_stays_open(earlier, flag);
        if owned.contains(true) && !owned.last() {
            let i = choose|i: int| 0 <= i < owned.len() && owned[i] == true;
            assert(earlier[i] == true);
        }
    }
}

/// The event flags after the flags of all `entries` were brought in step in order, where
/// `owned` says of each whether its region-lock item was owned then.
pub open spec fn region_flags_after(
    entries: Seq<(i64, EventFlagId)>,
    owned: Seq<bool>,
    flags: Map<EventFlagId, bool>,
) -> Map<EventFlagId, bool>
    decreases entries.len(),
{
    if entries.len() == 0 {
        flags
    } else {
        let before = region_flags_after(entries.drop_last(), owned.drop_last(), flags);
        let flag = entries.last().1;
        if sets_region_flag(owned.last(), before.get(flag)) {
            with_flag(before, flag, true)
        } else {
            before
        }
    }
}

/// Whether the item of some entry that names `flag` is owned.
pub open spec fn opens_region(
    entries: Seq<(i64, EventFlagId)>,
    owned: Seq<bool>,
    flag: EventFlagId,
) -> bool {
    exists|i: int| 0 <= i < entries.len() && (#[trigger] entries[i]).1 == flag && owned[i]
}

/// After an update over all region locks, each flag is set if it was before, or if the
/// item of some lock that names it is owned. No other flag changes, and none is cleared.
pub proof fn law_region_flags_are_in_step(
    entries: Seq<(i64, EventFlagId)>,
    owned: Seq<bool>,
    flags: Map<EventFlagId, bool>,
)
    requires
        owned.len() == entries.len(),
    ensures
        region_flags_after(entries, owned, flags).dom() == flags.dom(),
        forall|flag: EventFlagId|
            flags.contains_key(flag) ==> #[trigger] region_flags_after(entries, owned, flags)[flag]
                == (flags[flag] || opens_region(entries, owned, flag)),
    decreases entries.len(),
{
    if entries.len() > 0 {
        let last = entries.len() - 1;
        let rest = entries.drop_last();
        let after = region_flags_after(entries, owned, flags);
        law_region_flags_are_in_step(rest, owned.drop_last(), flags);
        assert(after.dom() =~= flags.dom());
        assert forall|flag: EventFlagId| flags.contains_key(flag) implies #[trigger] after[flag]
            == (flags[flag] || opens_region(entries, owned, flag)) by {
            assert(opens_region(entries, owned, flag) <==> opens_region(
                rest,
                owned.drop_last(),
                flag,
            ) || (entries[last].1 == flag && owned[last])) by {
                if opens_region(rest, owned.drop_last(), flag) {
                    let i = choose|i: int|
                        0 <= i < rest.len() && (#[trigger] rest[i]).1 == flag
                            && owned.drop_last()[i];
                    assert(entries[i].1 == flag && owned[i]);
                }
                if opens_region(entries, owned, flag) {
                    let i = choose|i: int|
                        0 <= i < entries.len() && (#[trigger] entries[i]).1 == flag && owned[i];
                    assert(i < last ==> rest[i].1 == flag && owned.drop_last()[i]);
                }
            }
        }
    }
}

/// Returns those of the given items that are not in the inventory, in order.
fn not_held(inventory: Option<&Vec<InventoryEntry>>, ids: &Vec<ItemId>) -> (missing: Vec<ItemId>)
    ensures
        missing@ == ids@.filter(|id: ItemId| !inventory_holds(inventory, id)),
{
    let ghost absent = |id: ItemId| !inventory_holds(inventory, id);
    let mut missing: Vec<ItemId> = Vec::new();
    let mut index: usize = 0;
    while index < ids.len()
        invariant
            index <= ids@.len(),
            absent == (|id: ItemId| !inventory_holds(inventory, id)),
            missing@ == ids@.take(index as int).filter(absent),
        decreases ids@.len() - index,
    {
        broadcast use Seq::lemma_filter_push;

        let id = ids[index];
        assert(ids@.take(index + 1) =~= ids@.take(index as int).push(id));
        if !has_goods_in_inventory(inventory, id) {
            missing.push(id);
        }
        index = index + 1;
    }
    assert(ids@.take(index as int) =~= ids@);
    missing
}

} // verus!
