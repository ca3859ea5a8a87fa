//! The slot data supplied by the Archipelago server.

use std::collections::{HashMap, HashSet};
use std::num::ParseIntError;

use vstd::prelude::*;
use vstd::std_specs::iter::IteratorSpec;

use crate::inventory::{has_goods_in_inventory, inventory_holds, InventoryEntry};
use crate::item_id::{item_id_from, ItemId, ItemIdError};
use crate::text::{i64_from_str, i64_value, parse_i64};

verus! {

broadcast use vstd::std_specs::hash::group_hash_axioms;

/// The slot data supplied by the Archipelago server which provides specific
/// information about how to set up this game.
pub struct SlotData {
    /// Event flags that must all be set to true in order for the player to be
    /// considered to have achieved their goal.
    pub goal: Vec<EventFlagId>,
    /// A map from Archipelago's item IDs to Elden Ring's.
    pub ap_ids_to_item_ids: HashMap<i64, DeserializableItemId>,
    /// A map from Archipelago's item IDs to the number of instances of that
    /// item the given ID should grant.
    pub item_counts: HashMap<i64, u32>,
    /// Archipelago item IDs that are progression but not progression-deprioritized.
    pub non_deprioritized_progression_item_ids: HashSet<i64>,
    /// A map from Archipelago location IDs to the event flags controlling their
    /// in-game map markers.
    pub priority_marker_flags: HashMap<i64, EventFlagId>,
    /// A map from Archipelago location IDs to the requirements for showing
    /// their in-game map markers.
    pub priority_marker_requirements: HashMap<i64, MarkerRequirement>,
    /// A map from real Archipelago location IDs to AP-only virtual locations
    /// checked by the same in-game action.
    pub virtual_location_triggers: HashMap<i64, Vec<i64>>,
    /// AP-only virtual locations that contain this player's own items. The
    /// Archipelago server does not resend these through the incoming item queue,
    /// so the client grants them when the virtual location is checked.
    pub local_virtual_location_items: HashMap<i64, i64>,
    /// AP-only virtual locations whose item is for another player, mapped to a
    /// display item used to show the picker an in-game pickup pop-up.
    pub virtual_location_display_items: HashMap<i64, DeserializableItemId>,
    /// A map from Archipelago region-lock item IDs to the in-game event flags
    /// that physical region barriers check.
    pub region_lock_item_flags: HashMap<i64, EventFlagId>,
    /// The options chosen by this player.
    pub options: Options,
}

impl SlotData {
    /// The Elden Ring item for an Archipelago item, if there is one.
    pub open spec fn er_item(&self, ap_item_id: i64) -> Option<ItemId> {
        if self.ap_ids_to_item_ids@.contains_key(ap_item_id) {
            Some(self.ap_ids_to_item_ids@[ap_item_id].0)
        } else {
            None
        }
    }

    /// How many instances one Archipelago item grants: one, unless the slot data
    /// says otherwise.
    pub open spec fn grant_quantity(&self, ap_item_id: i64) -> u32 {
        if self.item_counts@.contains_key(ap_item_id) {
            self.item_counts@[ap_item_id]
        } else {
            1
        }
    }

    /// Whether checking `trigger` directly checks the virtual location `child`.
    pub open spec fn triggers(&self, trigger: i64, child: i64) -> bool {
        self.virtual_location_triggers@.contains_key(trigger)
            && self.virtual_location_triggers@[trigger]@.contains(child)
    }

    /// Whether no location's check checks the virtual location `child`.
    pub open spec fn is_untriggered(&self, child: i64) -> bool {
        forall|trigger: i64| !#[trigger] self.triggers(trigger, child)
    }

    /// Whether the player owns an Archipelago item: the server sent it, or its Elden
    /// Ring item is in the inventory.
    pub open spec fn owns_ap_item(
        &self,
        received: Seq<i64>,
        inventory: Option<&Vec<InventoryEntry>>,
        ap_item_id: i64,
    ) -> bool {
        received.contains(ap_item_id) || self.er_item_held(inventory, ap_item_id)
    }

    /// Whether the Elden Ring item for an Archipelago item is in the inventory.
    pub open spec fn er_item_held(
        &self,
        inventory: Option<&Vec<InventoryEntry>>,
        ap_item_id: i64,
    ) -> bool {
        self.er_item(ap_item_id) matches Some(id) && inventory_holds(inventory, id)
    }

    /// Whether the marker of a location has a requirement that is met.
    pub open spec fn marker_met(
        &self,
        received: Seq<i64>,
        inventory: Option<&Vec<InventoryEntry>>,
        checked: spec_fn(i64) -> bool,
        location_id: i64,
    ) -> bool {
        self.priority_marker_requirements@.contains_key(location_id)
            && self.priority_marker_requirements@[location_id].met(
            |item_id: i64| self.owns_ap_item(received, inventory, item_id),
            checked,
        )
    }

    /// Returns the Elden Ring item for an Archipelago item.
    pub fn er_item_id(&self, ap_item_id: i64) -> (id: Option<ItemId>)
        ensures
            id == self.er_item(ap_item_id),
    {
        match self.ap_ids_to_item_ids.get(&ap_item_id) {
            Some(id) => Some(id.0),
            None => None,
        }
    }

    /// Returns how many instances of it one Archipelago item grants.
    pub fn item_quantity(&self, ap_item_id: i64) -> (quantity: u32)
        ensures
            quantity == self.grant_quantity(ap_item_id),
    {
        match self.item_counts.get(&ap_item_id) {
            Some(quantity) => *quantity,
            None => 1,
        }
    }

    /// Adds to `locations` every virtual location that checking them checks. Returns
    /// whether anything was added.
    pub fn expand_virtual_location_checks(&self, locations: &mut HashSet<i64>) -> (changed: bool)
        ensures
            final(locations)@ == expanded_locations(
                old(locations)@,
                self.virtual_location_triggers@,
            ),
            changed == (final(locations)@ != old(locations)@),
    {
        expand_virtual_location_checks(locations, &self.virtual_location_triggers)
    }

    /// Returns a location whose check also checks the given virtual location. Which
    /// one, where there are several, is not determined.
    pub fn virtual_location_trigger(&self, virtual_location_id: i64) -> (trigger: Option<i64>)
        ensures
            trigger is None <==> self.is_untriggered(virtual_location_id),
            trigger matches Some(t) ==> self.triggers(t, virtual_location_id),
    {
        let entries = self.virtual_location_triggers.iter();
        let ghost all = entries.remaining();
        for entry in iter: entries
            invariant
                iter.seq() == all,
                forall|i: int|
                    0 <= i < all.len() ==> self.virtual_location_triggers@.contains_pair(
                        *(#[trigger] all[i]).0,
                        *all[i].1,
                    ),
                forall|i: int|
                    0 <= i < iter.index() ==> !(#[trigger] all[i]).1@.contains(virtual_location_id),
        {
            let (trigger, children) = entry;
            if contains_id(children, virtual_location_id) {
                assert(self.triggers(*trigger, virtual_location_id));
                return Some(*trigger);
            }
        }
        None
    }

    /// Returns the Archipelago item that a virtual location holds for this player.
    pub fn local_virtual_location_item(&self, virtual_location_id: i64) -> (item: Option<i64>)
        ensures
            item == self.local_virtual_location_items@.get(virtual_location_id),
    {
        match self.local_virtual_location_items.get(&virtual_location_id) {
            Some(item) => Some(*item),
            None => None,
        }
    }

    /// The item whose pickup pop-up shows what a virtual location sent to another
    /// player, if any.
    pub open spec fn display_item(&self, virtual_location_id: i64) -> Option<ItemId> {
        if self.virtual_location_display_items@.contains_key(virtual_location_id) {
            Some(self.virtual_location_display_items@[virtual_location_id].0)
        } else {
            None
        }
    }

    /// Returns the item whose pickup pop-up shows what a virtual location sent to
    /// another player.
    pub fn virtual_location_display_item(&self, virtual_location_id: i64) -> (id: Option<ItemId>)
        ensures
            id == self.display_item(virtual_location_id),
    {
        match self.virtual_location_display_items.get(&virtual_location_id) {
            Some(id) => Some(id.0),
            None => None,
        }
    }

    /// Returns whether the requirement for showing a location's marker is met, given
    /// the IDs of the items that the server sent, the inventory, and which locations
    /// are checked. A location without a requirement has no marker to show.
    pub fn marker_requirement_met(
        &self,
        received: &Vec<i64>,
        inventory: Option<&Vec<InventoryEntry>>,
        is_location_checked: &impl Fn(i64) -> bool,
        location_id: i64,
    ) -> (met: bool)
        requires
            forall|id: i64| #[trigger] call_requires(*is_location_checked, (id,)),
        ensures
            answers_marker(
                *self,
                received@,
                inventory,
                *is_location_checked,
                location_id,
                met,
            ),
    {
        let Some(requirement) = self.priority_marker_requirements.get(&location_id) else {
            return false;
        };
        let has_item = |item_id: i64| -> (owned: bool)
            ensures
                owned == self.owns_ap_item(received@, inventory, item_id),
            { self.has_ap_item(received, inventory, item_id) };
        let met = requirement.is_met_with(&has_item, is_location_checked);
        assert(answers_as(
            has_item,
            |item_id: i64| self.owns_ap_item(received@, inventory, item_id),
        ));
        met
    }

    /// Returns whether the player owns an Archipelago item, given the IDs of the items
    /// that the server sent and the inventory.
    pub fn has_ap_item(
        &self,
        received: &Vec<i64>,
        inventory: Option<&Vec<InventoryEntry>>,
        item_id: i64,
    ) -> (owned: bool)
        ensures
            owned == self.owns_ap_item(received@, inventory, item_id),
    {
        contains_id(received, item_id) || self.has_er_inventory_item(inventory, item_id)
    }

    /// Returns whether the Elden Ring item for an Archipelago item is in the
    /// inventory. An inventory that is not loaded holds nothing.
    pub fn has_er_inventory_item(
        &self,
        inventory: Option<&Vec<InventoryEntry>>,
        ap_item_id: i64,
    ) -> (held: bool)
        ensures
            held == self.er_item_held(inventory, ap_item_id),
    {
        match self.er_item_id(ap_item_id) {
            Some(er_id) => has_goods_in_inventory(inventory, er_id),
            None => false,
        }
    }
}

/// Returns whether `ids` holds `id`.
pub(crate) fn contains_id(ids: &Vec<i64>, id: i64) -> (found: bool)
    ensures
        found == ids@.contains(id),
{
    let mut index: usize = 0;
    while index < ids.len()
        invariant
            index <= ids@.len(),
            forall|i: int| 0 <= i < index ==> ids@[i] != id,
        decreases ids@.len() - index,
    {
        if ids[index] == id {
            return true;
        }
        index = index + 1;
    }
    false
}

/// A condition on items and locations under which a map marker is shown.
#[derive(Debug, PartialEq, Eq)]
pub enum MarkerRequirement {
    /// The player owns the Archipelago item with this ID.
    Item(i64),
    /// The player has checked the location with this ID.
    Location(i64),
    /// Every one of these holds.
    All(Vec<MarkerRequirement>),
    /// At least one of these holds.
    Any(Vec<MarkerRequirement>),
    /// The marker is never shown.
    Never,
}

/// Every answer of `f` is that of `answer`.
pub open spec fn answers_as<F: Fn(i64) -> bool>(f: F, answer: spec_fn(i64) -> bool) -> bool {
    forall|id: i64, r: bool| #[trigger] call_ensures(f, (id,), r) ==> r == answer(id)
}

/// Whether `met` answers whether the marker of a location has a requirement that is met,
/// where `f` says which locations are checked.
pub open spec fn answers_marker<F: Fn(i64) -> bool>(
    slot_data: SlotData,
    received: Seq<i64>,
    inventory: Option<&Vec<InventoryEntry>>,
    f: F,
    location_id: i64,
    met: bool,
) -> bool {
    forall|checked: spec_fn(i64) -> bool| #[trigger]
        answers_as(f, checked) ==> met == slot_data.marker_met(
            received,
            inventory,
            checked,
            location_id,
        )
}

/// Whether `met` answers whether a requirement holds, where `f` and `g` say which items
/// are owned and which locations are checked.
pub open spec fn answers_requirement<F: Fn(i64) -> bool, G: Fn(i64) -> bool>(
    requirement: MarkerRequirement,
    f: F,
    g: G,
    met: bool,
) -> bool {
    forall|items: spec_fn(i64) -> bool, locations: spec_fn(i64) -> bool| #[trigger]
        answers_as(f, items) && #[trigger] answers_as(g, locations) ==> met == requirement.met(
            items,
            locations,
        )
}

impl MarkerRequirement {
    /// Whether the requirement holds, where `has_item` and `has_location` say
    /// which items are owned and which locations are checked.
    pub open spec fn met(
        self,
        has_item: spec_fn(i64) -> bool,
        has_location: spec_fn(i64) -> bool,
    ) -> bool
        decreases self,
    {
        match self {
            MarkerRequirement::Item(id) => has_item(id),
            MarkerRequirement::Location(id) => has_location(id),
            MarkerRequirement::All(parts) => forall|i: int|
                0 <= i < parts@.len() ==> (#[trigger] parts@[i]).met(has_item, has_location),
            MarkerRequirement::Any(parts) => exists|i: int|
                0 <= i < parts@.len() && (#[trigger] parts@[i]).met(has_item, has_location),
            MarkerRequirement::Never => false,
        }
    }

    /// Evaluates the requirement, asking `has_item` and `has_location` about the
    /// IDs that it names.
    pub fn is_met_with(
        &self,
        has_item: &impl Fn(i64) -> bool,
        has_location: &impl Fn(i64) -> bool,
    ) -> (met: bool)
        requires
            forall|id: i64| #[trigger] call_requires(*has_item, (id,)),
            forall|id: i64| #[trigger] call_requires(*has_location, (id,)),
        ensures
            answers_requirement(*self, *has_item, *has_location, met),
        decreases self,
    {
        match self {
            MarkerRequirement::Item(item_id) => has_item(*item_id),
            MarkerRequirement::Location(location_id) => has_location(*location_id),
            MarkerRequirement::All(requirements) => {
                let mut index: usize = 0;
                while index < requirements.len()
                    invariant
                        index <= requirements@.len(),
                        self is All,
                        self->All_0 == requirements,
                        forall|id: i64| #[trigger] call_requires(*has_item, (id,)),
                        forall|id: i64| #[trigger] call_requires(*has_location, (id,)),
                        forall|items: spec_fn(i64) -> bool, locations: spec_fn(i64) -> bool|
                            #![trigger answers_as(*has_item, items), answers_as(*has_location, locations)]
                            answers_as(*has_item, items) && answers_as(*has_location, locations)
                                ==> forall|i: int|
                                0 <= i < index ==> (#[trigger] requirements@[i]).met(
                                    items,
                                    locations,
                                ),
                    decreases requirements@.len() - index,
                {
                    if !requirements[index].is_met_with(has_item, has_location) {
                        return false;
                    }
                    index = index + 1;
                }
                true
            },
            MarkerRequirement::Any(requirements) => {
                let mut index: usize = 0;
                while index < requirements.len()
                    invariant
                        index <= requirements@.len(),
                        self is Any,
                        self->Any_0 == requirements,
                        forall|id: i64| #[trigger] call_requires(*has_item, (id,)),
                        forall|id: i64| #[trigger] call_requires(*has_location, (id,)),
                        forall|items: spec_fn(i64) -> bool, locations: spec_fn(i64) -> bool|
                            #![trigger answers_as(*has_item, items), answers_as(*has_location, locations)]
                            answers_as(*has_item, items) && answers_as(*has_location, locations)
                                ==> forall|i: int|
                                0 <= i < index ==> !(#[trigger] requirements@[i]).met(
                                    items,
                                    locations,
                                ),
                    decreases requirements@.len() - index,
                {
                    if requirements[index].is_met_with(has_item, has_location) {
                        return true;
                    }
                    index = index + 1;
                }
                false
            },
            MarkerRequirement::Never => false,
        }
    }
}

/// Checking a location in `locations` checks nothing that is not in it already.
pub open spec fn closed_under_triggers(
    locations: Set<i64>,
    triggers: Map<i64, Vec<i64>>,
) -> bool {
    forall|trigger: i64, child: i64|
        locations.contains(trigger) && #[trigger] triggers.contains_key(trigger)
            && #[trigger] triggers[trigger]@.contains(child) ==> locations.contains(child)
}

/// The smallest set of locations that holds `locations` and is closed under
/// `triggers`: what is checked in all once `locations` are.
pub open spec fn expanded_locations(
    locations: Set<i64>,
    triggers: Map<i64, Vec<i64>>,
) -> Set<i64> {
    Set::new(
        |location: i64|
            forall|closed: Set<i64>|
                locations.subset_of(closed) && #[trigger] closed_under_triggers(closed, triggers)
                    ==> closed.contains(location),
    )
}

/// Adds to `locations` every location that a trigger among them checks, directly
/// or through another location that was added. Returns whether anything was added.
pub fn expand_virtual_location_checks(
    locations: &mut HashSet<i64>,
    virtual_location_triggers: &HashMap<i64, Vec<i64>>,
) -> (changed: bool)
    ensures
        final(locations)@ == expanded_locations(old(locations)@, virtual_location_triggers@),
        changed == (final(locations)@ != old(locations)@),
{
    let ghost triggers = virtual_location_triggers@;
    let ghost start = locations@;
    let mut changed = false;
    let mut pending = collect_locations(locations);
    while pending.len() > 0
        invariant
            triggers == virtual_location_triggers@,
            start.subset_of(locations@),
            pending@.to_set().subset_of(locations@),
            locations@.subset_of(expanded_locations(start, triggers)),
            forall|trigger: i64, child: i64|
                locations@.contains(trigger) && #[trigger] triggers.contains_key(trigger)
                    && #[trigger] triggers[trigger]@.contains(child) ==> pending@.contains(trigger)
                    || locations@.contains(child),
            changed == (locations@ != start),
        decreases unchecked(locations@).len(), pending@.len(),
    {
        let ghost before = pending@;
        let location_id = pending.pop().unwrap();
        assert(before == pending@.push(location_id));
        let Some(children) = virtual_location_triggers.get(&location_id) else {
            continue;
        };
        let ghost known_before = locations@;
        let ghost waiting_before = pending@;
        let mut index: usize = 0;
        while index < children.len()
            invariant
                index <= children@.len(),
                unchecked(locations@).len() < unchecked(known_before).len() || (locations@
                    == known_before && pending@ == waiting_before),
                triggers == virtual_location_triggers@,
                start.subset_of(locations@),
                locations@.contains(location_id),
                triggers.contains_key(location_id),
                triggers[location_id] == children,
                pending@.to_set().subset_of(locations@),
                locations@.subset_of(expanded_locations(start, triggers)),
                forall|trigger: i64, child: i64|
                    locations@.contains(trigger) && #[trigger] triggers.contains_key(trigger)
                        && #[trigger] triggers[trigger]@.contains(child) ==> trigger == location_id
                        || pending@.contains(trigger) || locations@.contains(child),
                forall|i: int| 0 <= i < index ==> locations@.contains(#[trigger] children@[i]),
                changed == (locations@ != start),
            decreases children@.len() - index,
        {
            let child = children[index];
            let ghost known = locations@;
            let ghost waiting = pending@;
            if locations.insert(child) {
                changed = true;
                pending.push(child);
                proof {
                    lemma_expansion_holds_children(start, triggers, location_id, child);
                    lemma_unchecked_shrinks(known, child);
                    lemma_push_contains(waiting, child);
                }
            } else {
                assert(locations@ =~= known);
            }
            index = index + 1;
        }
    }
    proof {
        assert(closed_under_triggers(locations@, triggers));
    }
    changed
}

/// The expansion of some locations holds them, is closed under the triggers, and is
/// the smallest such set.
pub proof fn law_expansion_is_the_least_closed_set(
    locations: Set<i64>,
    triggers: Map<i64, Vec<i64>>,
    other: Set<i64>,
)
    ensures
        locations.subset_of(expanded_locations(locations, triggers)),
        closed_under_triggers(expanded_locations(locations, triggers), triggers),
        locations.subset_of(other) && closed_under_triggers(other, triggers)
            ==> expanded_locations(locations, triggers).subset_of(other),
{
}

/// Expanding locations that are expanded already adds nothing.
pub proof fn law_expansion_is_idempotent(locations: Set<i64>, triggers: Map<i64, Vec<i64>>)
    ensures
        expanded_locations(expanded_locations(locations, triggers), triggers)
            == expanded_locations(locations, triggers),
{
}

/// More locations expand to no fewer.
pub proof fn law_expansion_is_monotone(
    fewer: Set<i64>,
    more: Set<i64>,
    triggers: Map<i64, Vec<i64>>,
)
    requires
        fewer.subset_of(more),
    ensures
        expanded_locations(fewer, triggers).subset_of(expanded_locations(more, triggers)),
{
}

/// A requirement that is met stays met where more items are owned and more locations
/// are checked.
pub proof fn law_requirement_stays_met(
    requirement: MarkerRequirement,
    has_item: spec_fn(i64) -> bool,
    has_location: spec_fn(i64) -> bool,
    has_item_later: spec_fn(i64) -> bool,
    has_location_later: spec_fn(i64) -> bool,
)
    requires
        requirement.met(has_item, has_location),
        forall|id: i64| #[trigger] has_item(id) ==> has_item_later(id),
        forall|id: i64| #[trigger] has_location(id) ==> has_location_later(id),
    ensures
        requirement.met(has_item_later, has_location_later),
    decreases requirement,
{
    match requirement {
        MarkerRequirement::All(parts) => {
            assert forall|i: int| 0 <= i < parts@.len() implies (#[trigger] parts@[i]).met(
                has_item_later,
                has_location_later,
            ) by {
                law_requirement_stays_met(
                    parts@[i],
                    has_item,
                    has_location,
                    has_item_later,
                    has_location_later,
                );
            }
        },
        MarkerRequirement::Any(parts) => {
            let i = choose|i: int|
                0 <= i < parts@.len() && (#[trigger] parts@[i]).met(has_item, has_location);
            law_requirement_stays_met(
                parts@[i],
                has_item,
                has_location,
                has_item_later,
                has_location_later,
            );
        },
        _ => {},
    }
}

/// A location that a member of the expansion checks is itself in it.
proof fn lemma_expansion_holds_children(
    locations: Set<i64>,
    triggers: Map<i64, Vec<i64>>,
    trigger: i64,
    child: i64,
)
    requires
        expanded_locations(locations, triggers).contains(trigger),
        triggers.contains_key(trigger),
        triggers[trigger]@.contains(child),
    ensures
        expanded_locations(locations, triggers).contains(child),
{
}

/// One location more checked is one location fewer unchecked.
proof fn lemma_unchecked_shrinks(locations: Set<i64>, location: i64)
    requires
        !locations.contains(location),
    ensures
        unchecked(locations.insert(location)).len() < unchecked(locations).len(),
{
    assert(unchecked(locations) =~= Set::<i64>::full().difference(locations));
    assert(unchecked(locations).remove(location) =~= unchecked(locations.insert(location)));
}

/// Appending an element adds that one and nothing else.
pub(crate) proof fn lemma_push_contains<T>(items: Seq<T>, item: T)
    ensures
        forall|other: T| #[trigger]
            items.push(item).contains(other) <==> items.contains(other) || other == item,
        items.no_duplicates() && !items.contains(item) ==> items.push(item).no_duplicates(),
{
    assert forall|other: T| #[trigger]
        items.push(item).contains(other) <==> items.contains(other) || other == item by {
        if items.contains(other) {
            let i = choose|i: int| 0 <= i < items.len() && items[i] == other;
            assert(items.push(item)[i] == other);
        }
        if other == item {
            assert(items.push(item)[items.len() as int] == other);
        }
    }
}

/// The IDs that are not in `locations`.
spec fn unchecked(locations: Set<i64>) -> Set<i64> {
    locations.complement()
}

/// The members of `locations`, each once, in no particular order.
pub(crate) fn collect_locations(locations: &HashSet<i64>) -> (ids: Vec<i64>)
    ensures
        ids@.no_duplicates(),
        ids@.to_set() == locations@,
{
    let mut ids: Vec<i64> = Vec::new();
    let members = locations.iter();
    let ghost all = members.remaining().unref();
    for location in iter: members
        invariant
            iter.seq().unref() == all,
            iter.seq().no_duplicates(),
            ids@ == all.take(iter.index()),
    {
        ids.push(*location);
    }
    assert(ids@ =~= all);
    ids
}

/// An Elden Ring event flag ID.
#[derive(Debug, Clone, Copy, PartialEq, Eq, Hash, Structural)]
pub struct EventFlagId(pub u32);

impl From<EventFlagId> for u32 {
    fn from(flag: EventFlagId) -> (id: u32) {
        flag.0
    }
}

impl vstd::std_specs::convert::FromSpecImpl<EventFlagId> for u32 {
    open spec fn obeys_from_spec() -> bool {
        true
    }

    open spec fn from_spec(flag: EventFlagId) -> u32 {
        flag.0
    }
}

/// The options that the player chose.
#[derive(Debug, Clone, Copy, PartialEq, Eq, Structural)]
pub struct Options {
    /// Whether the player's Archipelago expects the Elden Ring DLC to be
    /// installed.
    pub enable_dlc: bool,
}

/// Interprets an integer as a boolean value: every integer but zero is true.
pub fn int_to_bool(value: u64) -> (truth: bool)
    ensures
        truth == (value != 0),
{
    value != 0
}

/// An integer that is written as text where it is the key of a map.
#[derive(Debug, Clone, Copy, Hash, PartialEq, Eq, Structural)]
pub struct I64Key(pub i64);

impl TryFrom<&str> for I64Key {
    type Error = ParseIntError;

    fn try_from(value: &str) -> (key: Result<I64Key, ParseIntError>)
        ensures
            key is Ok <==> i64_value(value@) is Some,
            key matches Ok(k) ==> i64_value(value@) == Some(k.0),
            key matches Err(error) ==> i64_from_str(value@) == Err::<i64, ParseIntError>(error),
    {
        match parse_i64(value) {
            Ok(id) => Ok(I64Key(id)),
            Err(error) => Err(error),
        }
    }
}

impl vstd::std_specs::convert::TryFromSpecImpl<&str> for I64Key {
    open spec fn obeys_try_from_spec() -> bool {
        false
    }

    open spec fn try_from_spec(v: &str) -> Result<I64Key, ParseIntError> {
        arbitrary()
    }
}

/// A wrapper over [ItemId] for the item IDs that come as numbers in the slot data.
#[derive(Debug, Clone, Copy, PartialEq, Eq, Structural)]
pub struct DeserializableItemId(pub ItemId);

impl TryFrom<u32> for DeserializableItemId {
    type Error = ItemIdError;

    fn try_from(value: u32) -> (id: Result<DeserializableItemId, ItemIdError>) {
        match ItemId::try_from(value) {
            Ok(id) => Ok(DeserializableItemId(id)),
            Err(error) => Err(error),
        }
    }
}

impl vstd::std_specs::convert::TryFromSpecImpl<u32> for DeserializableItemId {
    open spec fn obeys_try_from_spec() -> bool {
        true
    }

    open spec fn try_from_spec(v: u32) -> Result<DeserializableItemId, ItemIdError> {
        match item_id_from(v) {
            Ok(id) => Ok(DeserializableItemId(id)),
            Err(error) => Err(error),
        }
    }
}

} // verus!
