//! The slot data.

use std::collections::{HashMap, HashSet};

use vstd::prelude::*;

use crate::inventory::InventoryEntry;
use crate::item_id::ItemId;
use crate::slot_data::{
    answers_as, closed_under_triggers, expand_virtual_location_checks, expanded_locations,
    MarkerRequirement, SlotData,
};

verus! {

/// An Archipelago item stands for the Elden Ring item that the slot data maps it to, as
/// often as its count says, and once where it has no count.
pub proof fn law_items_are_mapped_and_counted(
    slot_data: &SlotData,
    ap_item_id: i64,
    id: Option<ItemId>,
    quantity: u32,
)
    requires
        call_ensures(SlotData::er_item_id, (slot_data, ap_item_id), id),
        call_ensures(SlotData::item_quantity, (slot_data, ap_item_id), quantity),
    ensures
        id is Some <==> slot_data.ap_ids_to_item_ids@.contains_key(ap_item_id),
        id is Some ==> id->0 == slot_data.ap_ids_to_item_ids@[ap_item_id].0,
        slot_data.item_counts@.contains_key(ap_item_id) ==> quantity
            == slot_data.item_counts@[ap_item_id],
        !slot_data.item_counts@.contains_key(ap_item_id) ==> quantity == 1,
{
}

/// A virtual location holds what the slot data says of it.
pub proof fn law_virtual_locations_hold_items(
    slot_data: &SlotData,
    location: i64,
    item: Option<i64>,
    display: Option<ItemId>,
)
    requires
        call_ensures(SlotData::local_virtual_location_item, (slot_data, location), item),
        call_ensures(SlotData::virtual_location_display_item, (slot_data, location), display),
    ensures
        item is Some <==> slot_data.local_virtual_location_items@.contains_key(location),
        item is Some ==> item->0 == slot_data.local_virtual_location_items@[location],
        display is Some <==> slot_data.virtual_location_display_items@.contains_key(location),
        display is Some ==> display->0 == slot_data.virtual_location_display_items@[location].0,
{
}

/// The trigger that is found of a location lists it, and one is found wherever some
/// location lists it.
pub proof fn law_triggers_list_their_locations(
    slot_data: &SlotData,
    location: i64,
    trigger: Option<i64>,
    other: i64,
    index: int,
)
    requires
        call_ensures(SlotData::virtual_location_trigger, (slot_data, location), trigger),
    ensures
        trigger is Some ==> slot_data.virtual_location_triggers@.contains_key(trigger->0)
            && slot_data.virtual_location_triggers@[trigger->0]@.contains(location),
        slot_data.virtual_location_triggers@.contains_key(other) && 0 <= index
            < slot_data.virtual_location_triggers@[other]@.len()
            && slot_data.virtual_location_triggers@[other]@[index] == location ==> trigger is Some,
{
    assert(trigger is Some ==> slot_data.triggers(trigger->0, location));
    assert(trigger is None ==> !slot_data.triggers(other, location));
}

/// Being sent an item is enough to own it, and so is holding the Elden Ring item that it
/// is mapped to. Nothing else is.
pub proof fn law_items_are_owned_in_two_ways(
    slot_data: &SlotData,
    received: &Vec<i64>,
    inventory: Option<&Vec<InventoryEntry>>,
    item_id: i64,
    held: bool,
    owned: bool,
)
    requires
        call_ensures(SlotData::has_er_inventory_item, (slot_data, inventory, item_id), held),
        call_ensures(SlotData::has_ap_item, (slot_data, received, inventory, item_id), owned),
    ensures
        forall|i: int| 0 <= i < received@.len() && #[trigger] received@[i] == item_id ==> owned,
        forall|i: int|
            inventory is Some && slot_data.ap_ids_to_item_ids@.contains_key(item_id) && 0 <= i
                < inventory->0@.len() && (#[trigger] inventory->0@[i]).item_id
                == slot_data.ap_ids_to_item_ids@[item_id].0 && inventory->0@[i].quantity > 0
                ==> held && owned,
        held ==> inventory is Some && slot_data.ap_ids_to_item_ids@.contains_key(item_id)
            && exists|i: int|
            0 <= i < inventory->0@.len() && (#[trigger] inventory->0@[i]).item_id
                == slot_data.ap_ids_to_item_ids@[item_id].0 && inventory->0@[i].quantity > 0,
        owned ==> held || exists|i: int|
            0 <= i < received@.len() && #[trigger] received@[i] == item_id,
{
}

/// A requirement for an item or a location is met as that item is owned or that location
/// is checked, one for all of several parts if every part is met, one for any of them if
/// some part is met, and one that is never met is not.
pub proof fn law_requirements_are_evaluated(
    requirement: MarkerRequirement,
    items: spec_fn(i64) -> bool,
    locations: spec_fn(i64) -> bool,
)
    ensures
        match requirement {
            MarkerRequirement::Item(id) => requirement.met(items, locations) == items(id),
            MarkerRequirement::Location(id) => requirement.met(items, locations) == locations(id),
            MarkerRequirement::All(parts) => {
                &&& forall|i: int|
                    0 <= i < parts@.len() && !(#[trigger] parts@[i]).met(items, locations)
                        ==> !requirement.met(items, locations)
                &&& !requirement.met(items, locations) ==> exists|i: int|
                    0 <= i < parts@.len() && !(#[trigger] parts@[i]).met(items, locations)
            },
            MarkerRequirement::Any(parts) => {
                &&& forall|i: int|
                    0 <= i < parts@.len() && (#[trigger] parts@[i]).met(items, locations)
                        ==> requirement.met(items, locations)
                &&& requirement.met(items, locations) ==> exists|i: int|
                    0 <= i < parts@.len() && (#[trigger] parts@[i]).met(items, locations)
            },
            MarkerRequirement::Never => !requirement.met(items, locations),
        },
{
}

/// Evaluating a requirement answers by its parts: what one call returns for it follows from
/// what other calls return for the requirements that it is made of.
pub proof fn law_requirements_answer_by_their_parts<F: Fn(i64) -> bool, G: Fn(i64) -> bool>(
    requirement: MarkerRequirement,
    has_item: &F,
    has_location: &G,
    items: spec_fn(i64) -> bool,
    locations: spec_fn(i64) -> bool,
    met: bool,
    index: int,
    part_met: bool,
)
    requires
        answers_as(*has_item, items),
        answers_as(*has_location, locations),
        call_ensures(MarkerRequirement::is_met_with, (&requirement, has_item, has_location), met),
        requirement is All ==> 0 <= index < requirement->All_0@.len() && call_ensures(
            MarkerRequirement::is_met_with,
            (&requirement->All_0@[index], has_item, has_location),
            part_met,
        ),
        requirement is Any ==> 0 <= index < requirement->Any_0@.len() && call_ensures(
            MarkerRequirement::is_met_with,
            (&requirement->Any_0@[index], has_item, has_location),
            part_met,
        ),
    ensures
        met == requirement.met(items, locations),
        requirement is Item ==> met == items(requirement->Item_0),
        requirement is Location ==> met == locations(requirement->Location_0),
        requirement is All && !part_met ==> !met,
        requirement is Any && part_met ==> met,
        requirement is Never ==> !met,
{
    law_requirements_are_evaluated(requirement, items, locations);
}

/// A location without a requirement has no marker to show. Otherwise its requirement is
/// asked of what is owned, by way of the server or of the inventory, and of what is
/// checked.
pub proof fn law_markers_ask_their_requirement<F: Fn(i64) -> bool>(
    slot_data: &SlotData,
    received: &Vec<i64>,
    inventory: Option<&Vec<InventoryEntry>>,
    is_checked: &F,
    location: i64,
    items: spec_fn(i64) -> bool,
    checked: spec_fn(i64) -> bool,
    met: bool,
)
    requires
        call_ensures(
            SlotData::marker_requirement_met,
            (slot_data, received, inventory, is_checked, location),
            met,
        ),
        answers_as(*is_checked, checked),
        forall|id: i64| #[trigger] items(id) <==> owns(slot_data, received@, inventory, id),
    ensures
        !slot_data.priority_marker_requirements@.contains_key(location) ==> !met,
        slot_data.priority_marker_requirements@.contains_key(location) ==> met
            == slot_data.priority_marker_requirements@[location].met(items, checked),
{
    let owned = |item_id: i64| slot_data.owns_ap_item(received@, inventory, item_id);
    assert forall|id: i64| #[trigger] owned(id) == items(id) by {
        assert(items(id) <==> owns(slot_data, received@, inventory, id));
    }
    assert(owned =~= items);
    assert(met == slot_data.marker_met(received@, inventory, checked, location));
}

/// Whether one of the IDs that the server sent is that of the item, or some slot of a
/// loaded inventory has a positive quantity of what the item is mapped to.
pub open spec fn owns(
    slot_data: &SlotData,
    received: Seq<i64>,
    inventory: Option<&Vec<InventoryEntry>>,
    id: i64,
) -> bool {
    ||| exists|i: int| 0 <= i < received.len() && #[trigger] received[i] == id
    ||| inventory is Some && slot_data.ap_ids_to_item_ids@.contains_key(id) && exists|i: int|
        0 <= i < inventory->0@.len() && (#[trigger] inventory->0@[i]).item_id
            == slot_data.ap_ids_to_item_ids@[id].0 && inventory->0@[i].quantity > 0
}

/// Whether `path` leads from one of `start` on, each location on it checking the next.
pub open spec fn is_chain(path: Seq<i64>, start: Set<i64>, triggers: Map<i64, Vec<i64>>) -> bool
    decreases path.len(),
{
    if path.len() == 0 {
        false
    } else if path.len() == 1 {
        start.contains(path[0])
    } else {
        let before = path[path.len() - 2];
        is_chain(path.drop_last(), start, triggers) && triggers.contains_key(before)
            && triggers[before]@.contains(path.last())
    }
}

/// Checking locations checks exactly those that a chain of triggers leads to from one of
/// them, and `changed` says whether that is any more than there were.
pub proof fn law_expansion_follows_chains(
    locations: &mut HashSet<i64>,
    triggers: &HashMap<i64, Vec<i64>>,
    changed: bool,
)
    requires
        call_ensures(expand_virtual_location_checks, (locations, triggers), changed),
    ensures
        forall|path: Seq<i64>| #[trigger]
            is_chain(path, old(locations)@, triggers@) ==> final(locations)@.contains(path.last()),
        forall|location: i64| #[trigger]
            final(locations)@.contains(location) ==> exists|path: Seq<i64>|
                path.len() > 0 && path.last() == location && #[trigger] is_chain(
                    path,
                    old(locations)@,
                    triggers@,
                ),
        changed <==> exists|location: i64| #[trigger]
            final(locations)@.contains(location) && !old(locations)@.contains(location),
{
    lemma_expansion_is_chains(old(locations)@, triggers@);
    assert forall|location: i64| #[trigger] old(locations)@.contains(location) implies
        final(locations)@.contains(location) by {
        assert(is_chain(seq![location], old(locations)@, triggers@));
    }
    if !(exists|location: i64| #[trigger]
        final(locations)@.contains(location) && !old(locations)@.contains(location)) {
        assert(final(locations)@ =~= old(locations)@);
    }
}

/// The slot data expands locations by its own triggers.
pub proof fn law_slot_data_expands_by_its_triggers(
    slot_data: &SlotData,
    locations: &mut HashSet<i64>,
    others: &mut HashSet<i64>,
    changed: bool,
    others_changed: bool,
)
    requires
        call_ensures(
            SlotData::expand_virtual_location_checks,
            (slot_data, locations),
            changed,
        ),
        call_ensures(
            expand_virtual_location_checks,
            (others, &slot_data.virtual_location_triggers),
            others_changed,
        ),
        old(locations)@ == old(others)@,
    ensures
        final(locations)@ == final(others)@,
        changed == others_changed,
{
}

/// The expansion of some locations is where chains of triggers lead to from them.
pub proof fn lemma_expansion_is_chains(start: Set<i64>, triggers: Map<i64, Vec<i64>>)
    ensures
        forall|path: Seq<i64>| #[trigger]
            is_chain(path, start, triggers) ==> expanded_locations(start, triggers).contains(
                path.last(),
            ),
        forall|location: i64| #[trigger]
            expanded_locations(start, triggers).contains(location) ==> exists|path: Seq<i64>|
                path.len() > 0 && path.last() == location && #[trigger] is_chain(
                    path,
                    start,
                    triggers,
                ),
{
    assert forall|path: Seq<i64>| #[trigger] is_chain(path, start, triggers) implies
        expanded_locations(start, triggers).contains(path.last()) by {
        lemma_chain_is_expanded(path, start, triggers);
    }
    let reached = Set::new(
        |location: i64|
            exists|path: Seq<i64>|
                path.len() > 0 && path.last() == location && #[trigger] is_chain(
                    path,
                    start,
                    triggers,
                ),
    );
    assert forall|location: i64| #[trigger] start.contains(location) implies reached.contains(
        location,
    ) by {
        let path = seq![location];
        assert(is_chain(path, start, triggers) && path.last() == location);
    }
    assert forall|trigger: i64, child: i64|
        reached.contains(trigger) && #[trigger] triggers.contains_key(trigger)
            && #[trigger] triggers[trigger]@.contains(child) implies reached.contains(child) by {
        let path = choose|path: Seq<i64>|
            path.len() > 0 && path.last() == trigger && #[trigger] is_chain(path, start, triggers);
        let longer = path.push(child);
        assert(longer.drop_last() =~= path);
        assert(longer[longer.len() - 2] == trigger);
        assert(is_chain(longer, start, triggers) && longer.last() == child);
    }
    assert(closed_under_triggers(reached, triggers));
    assert(expanded_locations(start, triggers).subset_of(reached));
}

/// The end of a chain is in the expansion.
proof fn lemma_chain_is_expanded(path: Seq<i64>, start: Set<i64>, triggers: Map<i64, Vec<i64>>)
    requires
        is_chain(path, start, triggers),
    ensures
        expanded_locations(start, triggers).contains(path.last()),
    decreases path.len(),
{
    if path.len() > 1 {
        let shorter = path.drop_last();
        lemma_chain_is_expanded(shorter, start, triggers);
        assert forall|closed: Set<i64>|
            start.subset_of(closed) && #[trigger] closed_under_triggers(
                closed,
                triggers,
            ) implies closed.contains(path.last()) by {
            assert(closed.contains(shorter.last()));
        }
    }
}

} // verus!
