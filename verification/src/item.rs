//! Placeholder items: what they stand for, and what becomes of them when they are
//! granted.

use std::collections::HashMap;

use vstd::prelude::*;

use crate::display::ItemGetDisplay;
use crate::item_id::{
    category_of, foreign_display_item_id, foreign_display_raw, is_placeholder, ItemId, ItemIdExt,
};
use crate::save_data::{lemma_locations_added_twice, locations_added, SaveData};

verus! {

broadcast use vstd::std_specs::hash::group_hash_axioms;

/// The icon of a display item for a progression item.
pub const ARCHIPELAGO_PROGRESSION_ICON_ID: u16 = 15363;

/// The icon of a display item for a useful item.
pub const ARCHIPELAGO_USEFUL_ICON_ID: u16 = 15333;

/// The dialog condition that shows the pickup dialog.
pub const SHOW_DIALOG: u8 = 2;

/// What is read of a row of the goods parameter table.
#[derive(Clone, Copy, Debug, PartialEq, Eq, Structural)]
pub struct GoodsRow {
    pub vagrant_item_lot_id: i32,
    pub vagrant_bonus_ene_drop_item_lot_id: i32,
    pub basic_price: i32,
    pub sell_value: i32,
    pub appearance_replace_item_id: i32,
    pub icon_id: u16,
}

/// A row of an equipment parameter table.
#[derive(Clone, Copy, Debug, PartialEq, Eq, Structural)]
pub enum EquipParam {
    Accessory,
    Gem,
    Goods(GoodsRow),
    Protector,
    Weapon,
}

impl EquipParam {
    /// Returns this as a row of the goods table, if it is one.
    pub fn as_goods(&self) -> (row: Option<GoodsRow>)
        ensures
            row == (match *self {
                EquipParam::Goods(goods) => Some(goods),
                _ => None,
            }),
    {
        match self {
            EquipParam::Goods(row) => Some(*row),
            _ => None,
        }
    }
}

/// The equipment parameter rows of the items in play, by the numbers of their IDs.
pub struct RegulationManager {
    pub rows: HashMap<u32, EquipParam>,
}

impl RegulationManager {
    /// Returns the row of the given item, if it has one.
    pub fn get_equip_param(&self, id: ItemId) -> (row: Option<EquipParam>)
        ensures
            row == self.rows@.get(id@),
    {
        match self.rows.get(&id.into_inner()) {
            Some(row) => Some(*row),
            None => None,
        }
    }

    /// The row of the item whose number is `raw`, if that is a row of the goods table.
    pub open spec fn goods(&self, raw: u32) -> Option<GoodsRow> {
        match self.rows@.get(raw) {
            Some(EquipParam::Goods(row)) => Some(row),
            _ => None,
        }
    }

    /// Returns the row of the given item, if that is a row of the goods table.
    pub fn get_goods(&self, id: ItemId) -> (row: Option<GoodsRow>)
        ensures
            row == self.goods(id@),
    {
        match self.get_equip_param(id) {
            Some(row) => row.as_goods(),
            None => None,
        }
    }
}

/// The bits of a signed number, read as an unsigned one.
pub open spec fn unsigned(value: i32) -> u32 {
    if value < 0 {
        (value + 0x1_0000_0000) as u32
    } else {
        value as u32
    }
}

/// Returns the bits of a signed number as an unsigned one.
fn to_unsigned(value: i32) -> (bits: u32)
    ensures
        bits == unsigned(value),
{
    assert(value < 0 ==> #[verifier::truncate] (value as u32) == value + 0x1_0000_0000) by (bit_vector);
    #[verifier::truncate]
    (value as u32)
}

/// What Archipelago encodes in the unused fields of a placeholder's row.
pub trait EquipParamExt {
    /// The location that the placeholder stands for, as a number of any size.
    spec fn location(&self) -> int;

    /// The number of the item that the placeholder stands for and its quantity,
    /// where that item is for this player.
    spec fn local_item(&self) -> Option<(u32, u32)>;

    /// Whether the location fits into a location ID.
    open spec fn location_in_range(&self) -> bool {
        i64::MIN <= self.location() <= i64::MAX
    }

    /// Whether the item, if there is one, has an ID.
    open spec fn item_is_valid(&self) -> bool {
        self.local_item() matches Some((raw, _)) ==> category_of(raw) is Some
    }

    /// Whether the row says what the placeholder stands for.
    open spec fn well_formed(&self) -> bool {
        self.location_in_range() && self.item_is_valid()
    }

    /// Returns the Archipelago location ID encoded in this item's unused
    /// params.
    fn archipelago_location_id(&self) -> (location_id: i64)
        requires
            self.location_in_range(),
        ensures
            location_id == self.location(),
    ;

    /// If this parameter represents a synthetic wrapper around a local item,
    /// returns the real item ID and the quantity that should be given to the
    /// player.
    fn archipelago_item(&self) -> (item: Option<(ItemId, u32)>)
        requires
            self.item_is_valid(),
        ensures
            item == (match self.local_item() {
                Some((raw, quantity)) => Some((ItemId::from_raw(raw), quantity)),
                None => None,
            }),
    ;
}

impl EquipParamExt for GoodsRow {
    open spec fn location(&self) -> int {
        self.vagrant_item_lot_id + self.vagrant_bonus_ene_drop_item_lot_id * 0x1_0000_0000
    }

    open spec fn local_item(&self) -> Option<(u32, u32)> {
        if self.basic_price == 0 {
            None
        } else {
            Some((unsigned(self.basic_price), unsigned(self.sell_value)))
        }
    }

    fn archipelago_location_id(&self) -> (location_id: i64) {
        self.vagrant_item_lot_id as i64 + self.vagrant_bonus_ene_drop_item_lot_id as i64
            * 0x1_0000_0000
    }

    fn archipelago_item(&self) -> (item: Option<(ItemId, u32)>) {
        if self.basic_price == 0 {
            None
        } else {
            let id = ItemId::try_from(to_unsigned(self.basic_price)).unwrap();
            Some((id, to_unsigned(self.sell_value)))
        }
    }
}

/// One item that the game is about to grant to the player.
#[derive(Clone, Copy, Debug, PartialEq, Eq, Structural)]
pub struct ItemBufferEntry {
    pub id: ItemId,
    pub quantity: u32,
    pub durability: u32,
    pub gem: u32,
}

/// Something that has to be done in the game for a display item.
#[derive(Clone, Copy, Debug, PartialEq, Eq, Structural)]
pub enum DisplayEffect {
    /// Set how the item's pickup is displayed.
    SetDisplay(ItemId, ItemGetDisplay),
    /// Grant one of the item, which shows its pickup.
    Grant(ItemId),
    /// Queue one of the item for removal from the inventory.
    QueueCleanup(ItemId),
}

/// Whether the pickup of a display item shows a dialog: its icon says that it
/// stands for a progression item or a useful one.
pub open spec fn shows_dialog(regulation: &RegulationManager, raw: u32) -> bool {
    regulation.goods(raw) matches Some(row) && (row.icon_id == ARCHIPELAGO_PROGRESSION_ICON_ID
        || row.icon_id == ARCHIPELAGO_USEFUL_ICON_ID)
}

/// How the pickup of a display item is displayed: it is logged in any case.
pub open spec fn pickup_display(regulation: &RegulationManager, raw: u32) -> ItemGetDisplay {
    ItemGetDisplay {
        show_log: true,
        show_dialog: if shows_dialog(regulation, raw) {
            SHOW_DIALOG
        } else {
            0
        },
    }
}

/// Returns whether the pickup of the given display item shows a dialog.
pub fn should_show_item_get_dialog(regulation: &RegulationManager, id: ItemId) -> (show: bool)
    ensures
        show == shows_dialog(regulation, id@),
{
    match regulation.get_goods(id) {
        Some(row) => row.icon_id == ARCHIPELAGO_PROGRESSION_ICON_ID || row.icon_id
            == ARCHIPELAGO_USEFUL_ICON_ID,
        None => false,
    }
}

/// Returns how the pickup of a display item whose dialog is shown is displayed.
pub fn show_item_get_dialog() -> (display: ItemGetDisplay)
    ensures
        display == (ItemGetDisplay { show_log: true, show_dialog: SHOW_DIALOG }),
{
    ItemGetDisplay { show_log: true, show_dialog: SHOW_DIALOG }
}

/// Returns how the pickup of a display item whose dialog is not shown is displayed.
pub fn suppress_item_get_dialog() -> (display: ItemGetDisplay)
    ensures
        display == (ItemGetDisplay { show_log: true, show_dialog: 0 }),
{
    ItemGetDisplay::suppressed()
}

/// Returns what sets up how the pickup of a display item is displayed.
fn display_effect(regulation: &RegulationManager, id: ItemId) -> (effect: DisplayEffect)
    ensures
        effect == DisplayEffect::SetDisplay(id, pickup_display(regulation, id@)),
{
    if should_show_item_get_dialog(regulation, id) {
        DisplayEffect::SetDisplay(id, show_item_get_dialog())
    } else {
        DisplayEffect::SetDisplay(id, suppress_item_get_dialog())
    }
}

/// Whether an item is either no placeholder or one whose row says what it stands for.
pub open spec fn has_meaning(regulation: &RegulationManager, id: ItemId) -> bool {
    is_placeholder(id@) ==> (regulation.goods(id@) matches Some(row) && row.well_formed())
}

/// The row of a placeholder.
pub open spec fn placeholder_row(regulation: &RegulationManager, id: ItemId) -> GoodsRow {
    regulation.goods(id@)->0
}

/// What an entry is granted as, if as anything. A placeholder for a local item is
/// granted as that item. A foreign one is granted as its display item, or not at
/// all where it has none; without a save to note its location in, it is left as
/// it is.
pub open spec fn granted_as(
    regulation: &RegulationManager,
    save_loaded: bool,
    entry: ItemBufferEntry,
) -> Option<ItemBufferEntry> {
    let row = placeholder_row(regulation, entry.id);
    if !is_placeholder(entry.id@) {
        Some(entry)
    } else {
        match row.local_item() {
            Some((raw, quantity)) => Some(
                ItemBufferEntry {
                    id: ItemId::from_raw(raw),
                    quantity,
                    durability: u32::MAX,
                    gem: entry.gem,
                },
            ),
            None => if !save_loaded {
                Some(entry)
            } else {
                match foreign_display_raw(row.appearance_replace_item_id) {
                    Some(raw) => Some(
                        ItemBufferEntry {
                            id: ItemId::from_raw(raw),
                            quantity: 1,
                            durability: u32::MAX,
                            gem: u32::MAX,
                        },
                    ),
                    None => None,
                }
            },
        }
    }
}

/// The display item that an entry is granted as, if it is one.
pub open spec fn displayed_as(
    regulation: &RegulationManager,
    save_loaded: bool,
    entry: ItemBufferEntry,
) -> Option<u32> {
    let row = placeholder_row(regulation, entry.id);
    if is_placeholder(entry.id@) && row.local_item() is None && save_loaded {
        foreign_display_raw(row.appearance_replace_item_id)
    } else {
        None
    }
}

/// What has to be done in the game for an entry.
pub open spec fn grant_effects(
    regulation: &RegulationManager,
    save_loaded: bool,
    entry: ItemBufferEntry,
) -> Seq<DisplayEffect> {
    match displayed_as(regulation, save_loaded, entry) {
        Some(raw) => seq![
            DisplayEffect::SetDisplay(ItemId::from_raw(raw), pickup_display(regulation, raw)),
            DisplayEffect::QueueCleanup(ItemId::from_raw(raw)),
        ],
        None => Seq::empty(),
    }
}

/// The items that `entries` grant.
pub open spec fn entry_ids(entries: Seq<ItemBufferEntry>) -> Seq<ItemId> {
    entries.map_values(|entry: ItemBufferEntry| entry.id)
}

/// Whether `id` is a placeholder that stands for `location`.
pub open spec fn stands_for(regulation: &RegulationManager, id: ItemId, location: i64) -> bool {
    is_placeholder(id@) && placeholder_row(regulation, id).location() == location
}

/// The locations that the placeholders among `ids` stand for.
pub open spec fn placeholder_locations(
    regulation: &RegulationManager,
    ids: Seq<ItemId>,
) -> Set<i64> {
    Set::new(
        |location: i64|
            exists|i: int|
                0 <= i < ids.len() && stands_for(regulation, #[trigger] ids[i], location),
    )
}

/// What `entries` are granted as.
pub open spec fn granted_items(
    regulation: &RegulationManager,
    save_loaded: bool,
    entries: Seq<ItemBufferEntry>,
) -> Seq<ItemBufferEntry> {
    entries.filter_map(|entry: ItemBufferEntry| granted_as(regulation, save_loaded, entry))
}

/// What has to be done in the game for `entries`, in order.
pub open spec fn all_grant_effects(
    regulation: &RegulationManager,
    save_loaded: bool,
    entries: Seq<ItemBufferEntry>,
) -> Seq<DisplayEffect> {
    entries.flat_map(|entry: ItemBufferEntry| grant_effects(regulation, save_loaded, entry))
}

/// Replaces the placeholders among the items that the game is about to grant by
/// what they stand for, and notes their locations in the save. Returns what has to
/// be done in the game, in order.
pub fn on_grant_items(
    items: &mut Vec<ItemBufferEntry>,
    regulation: &RegulationManager,
    save_data: &mut Option<SaveData>,
) -> (effects: Vec<DisplayEffect>)
    requires
        forall|i: int|
            0 <= i < old(items)@.len() ==> has_meaning(regulation, (#[trigger] old(items)@[i]).id),
    ensures
        final(items)@ == granted_items(regulation, (*old(save_data)) is Some, old(items)@),
        effects@ == all_grant_effects(regulation, (*old(save_data)) is Some, old(items)@),
        locations_added(
            *old(save_data),
            *final(save_data),
            placeholder_locations(regulation, entry_ids(old(items)@)),
        ),
{
    let ghost all = items@;
    let ghost saved = *save_data;
    let ghost loaded = (*save_data) is Some;
    let ghost mut done: int = 0;
    let mut effects: Vec<DisplayEffect> = Vec::new();
    let mut index: usize = 0;
    proof {
        if let Some(before) = saved {
            assert(before.locations@.union(placeholder_locations(regulation, entry_ids(all.take(0))))
                =~= before.locations@);
        }
    }
    while index < items.len()
        invariant
            0 <= done <= all.len(),
            forall|i: int| 0 <= i < all.len() ==> has_meaning(regulation, (#[trigger] all[i]).id),
            index == granted_items(regulation, loaded, all.take(done)).len(),
            items@ == granted_items(regulation, loaded, all.take(done)) + all.skip(done),
            effects@ == all_grant_effects(regulation, loaded, all.take(done)),
            loaded == saved is Some,
            locations_added(
                saved,
                *save_data,
                placeholder_locations(regulation, entry_ids(all.take(done))),
            ),
        decreases all.len() - done,
    {
        broadcast use {ItemId::lemma_from_raw_of_view, ItemId::lemma_view_of_from_raw};

        let item = items[index];
        proof {
            lemma_grant_step(regulation, loaded, all, done);
            done = done + 1;
        }
        if !item.id.is_archipelago() {
            index = index + 1;
            proof {
                assert(placeholder_locations(regulation, entry_ids(all.take(done)))
                    =~= placeholder_locations(regulation, entry_ids(all.take(done - 1))));
            }
            continue;
        }
        let row = regulation.get_goods(item.id).unwrap();
        let location_id = row.archipelago_location_id();
        let ghost noted = *save_data;
        let save_loaded = note_location(save_data, location_id);
        proof {
            let earlier = placeholder_locations(regulation, entry_ids(all.take(done - 1)));
            lemma_locations_added_twice(saved, noted, *save_data, earlier, set![location_id]);
            assert(placeholder_locations(regulation, entry_ids(all.take(done))) =~= earlier.union(
                set![location_id],
            ));
        }
        if let Some((real_id, quantity)) = row.archipelago_item() {
            items[index] = ItemBufferEntry {
                id: real_id,
                quantity,
                durability: u32::MAX,
                gem: item.gem,
            };
            index = index + 1;
        } else if save_loaded {
            if let Some(display_item) = foreign_display_item_id(row.appearance_replace_item_id) {
                effects.push(display_effect(regulation, display_item));
                items[index] = ItemBufferEntry {
                    id: display_item,
                    quantity: 1,
                    durability: u32::MAX,
                    gem: u32::MAX,
                };
                effects.push(DisplayEffect::QueueCleanup(display_item));
                index = index + 1;
            } else {
                items.remove(index);
            }
        } else {
            index = index + 1;
        }
    }
    proof {
        assert(all.take(done) =~= all);
    }
    effects
}

/// Notes a location as checked, where there is save data to note it in. Returns
/// whether there is.
fn note_location(save_data: &mut Option<SaveData>, location_id: i64) -> (noted: bool)
    ensures
        noted == (*old(save_data)) is Some,
        locations_added(*old(save_data), *final(save_data), set![location_id]),
{
    match save_data {
        Some(data) => {
            let ghost before = data.locations@;
            data.locations.insert(location_id);
            assert(data.locations@ =~= before.union(set![location_id]));
            true
        },
        None => false,
    }
}

/// What one entry more adds to the results for the entries before it.
pub proof fn lemma_grant_step(
    regulation: &RegulationManager,
    save_loaded: bool,
    all: Seq<ItemBufferEntry>,
    done: int,
)
    requires
        0 <= done < all.len(),
    ensures
        granted_items(regulation, save_loaded, all.take(done + 1)) == granted_items(
            regulation,
            save_loaded,
            all.take(done),
        ) + (match granted_as(regulation, save_loaded, all[done]) {
            Some(entry) => seq![entry],
            None => Seq::empty(),
        }),
        all_grant_effects(regulation, save_loaded, all.take(done + 1)) == all_grant_effects(
            regulation,
            save_loaded,
            all.take(done),
        ) + grant_effects(regulation, save_loaded, all[done]),
        forall|location: i64| #[trigger]
            placeholder_locations(regulation, entry_ids(all.take(done + 1))).contains(location)
                <==> placeholder_locations(regulation, entry_ids(all.take(done))).contains(location)
                || stands_for(regulation, all[done].id, location),
        all.skip(done) == seq![all[done]] + all.skip(done + 1),
{
    all.lemma_filter_map_take_succ(
        |entry: ItemBufferEntry| granted_as(regulation, save_loaded, entry),
        done,
    );
    all.lemma_flat_map_take_append(
        |entry: ItemBufferEntry| grant_effects(regulation, save_loaded, entry),
        done,
    );
    lemma_locations_step(regulation, entry_ids(all), done);
    assert(entry_ids(all.take(done)) =~= entry_ids(all).take(done));
    assert(entry_ids(all.take(done + 1)) =~= entry_ids(all).take(done + 1));
}

/// What one item more adds to the locations of the items before it.
pub proof fn lemma_locations_step(regulation: &RegulationManager, ids: Seq<ItemId>, index: int)
    requires
        0 <= index < ids.len(),
    ensures
        forall|location: i64| #[trigger]
            placeholder_locations(regulation, ids.take(index + 1)).contains(location)
                <==> placeholder_locations(regulation, ids.take(index)).contains(location)
                || stands_for(regulation, ids[index], location),
{
    let shorter = ids.take(index);
    let longer = ids.take(index + 1);
    assert forall|location: i64| #[trigger]
        placeholder_locations(regulation, longer).contains(location) <==> placeholder_locations(
            regulation,
            shorter,
        ).contains(location) || stands_for(regulation, ids[index], location) by {
        if stands_for(regulation, ids[index], location) {
            assert(longer[index] == ids[index]);
        }
        if placeholder_locations(regulation, longer).contains(location) {
            let i = choose|i: int|
                0 <= i < longer.len() && stands_for(regulation, #[trigger] longer[i], location);
            assert(i < index ==> shorter[i] == longer[i]);
        }
    }
}

/// Why a placeholder cannot be replaced.
#[derive(Clone, Copy, Debug, PartialEq, Eq, Structural)]
pub enum PlaceholderError {
    /// It has no row.
    NoRow,
    /// Its row is not in the goods table.
    NotGoods,
    /// Its row names this number as the item that it stands for, which is no item ID.
    InvalidItem(i32),
    /// The location in its row is out of range.
    LocationOutOfRange,
}

/// The row of a placeholder, or why it says nothing.
pub open spec fn readable_row(
    regulation: &RegulationManager,
    id: ItemId,
) -> Result<GoodsRow, PlaceholderError> {
    match regulation.rows@.get(id@) {
        None => Err(PlaceholderError::NoRow),
        Some(EquipParam::Goods(row)) => if !row.location_in_range() {
            Err(PlaceholderError::LocationOutOfRange)
        } else if !row.item_is_valid() {
            Err(PlaceholderError::InvalidItem(row.basic_price))
        } else {
            Ok(row)
        },
        Some(_) => Err(PlaceholderError::NotGoods),
    }
}

/// Returns the row of a placeholder, if that says what the placeholder stands for.
pub fn read_placeholder(
    regulation: &RegulationManager,
    id: ItemId,
) -> (row: Result<GoodsRow, PlaceholderError>)
    ensures
        row == readable_row(regulation, id),
        row is Ok <==> (regulation.goods(id@) matches Some(goods) && goods.well_formed()),
{
    let Some(param) = regulation.get_equip_param(id) else {
        return Err(PlaceholderError::NoRow);
    };
    let Some(row) = param.as_goods() else {
        return Err(PlaceholderError::NotGoods);
    };
    if row.vagrant_bonus_ene_drop_item_lot_id == i32::MIN && row.vagrant_item_lot_id < 0 {
        return Err(PlaceholderError::LocationOutOfRange);
    }
    if row.basic_price != 0 && ItemId::try_from(to_unsigned(row.basic_price)).is_err() {
        return Err(PlaceholderError::InvalidItem(row.basic_price));
    }
    Ok(row)
}

/// What has to be done in the game to show the pickup of a display item: nothing
/// where it has no row.
pub open spec fn virtual_display_effects(
    regulation: Option<&RegulationManager>,
    display_item: ItemId,
) -> Seq<DisplayEffect> {
    match regulation {
        Some(manager) => if manager.rows@.contains_key(display_item@) {
            seq![
                DisplayEffect::SetDisplay(
                    display_item,
                    pickup_display(manager, display_item@),
                ),
                DisplayEffect::Grant(display_item),
                DisplayEffect::QueueCleanup(display_item),
            ]
        } else {
            Seq::empty()
        },
        None => Seq::empty(),
    }
}

/// Shows a one-off pickup pop-up for a foreign virtual location's display item,
/// then queues the temporary item for removal from the inventory. Returns what has
/// to be done in the game, in order.
///
/// Virtual (priority) locations have no physical world item, so unlike normal foreign
/// pickups this doesn't pass through [on_grant_items]. The behaviour is the same:
/// progression and useful display items get the dialog, others only log, and the display
/// item is queued so that the next frame removes it again. An item that has no row is
/// not granted at all.
pub fn show_virtual_location_display_item(
    regulation: Option<&RegulationManager>,
    display_item: ItemId,
) -> (effects: Vec<DisplayEffect>)
    ensures
        effects@ == virtual_display_effects(regulation, display_item),
{
    let mut effects: Vec<DisplayEffect> = Vec::new();
    if let Some(manager) = regulation {
        if manager.get_equip_param(display_item).is_some() {
            effects.push(display_effect(manager, display_item));
            effects.push(DisplayEffect::Grant(display_item));
            effects.push(DisplayEffect::QueueCleanup(display_item));
        }
    }
    effects
}

/// The display items that are still to be removed from the inventory.
pub struct DisplayItemQueue {
    pub items: Vec<ItemId>,
}

impl DisplayItemQueue {
    /// Creates an empty queue.
    pub fn new() -> (queue: DisplayItemQueue)
        ensures
            queue.items@ == Seq::<ItemId>::empty(),
    {
        DisplayItemQueue { items: Vec::new() }
    }

    /// Queues one of the given item for removal.
    pub fn queue_display_item_cleanup(&mut self, id: ItemId)
        ensures
            final(self).items@ == old(self).items@.push(id),
    {
        self.items.push(id);
    }
}

/// Takes the items out of the queue that can be removed from the inventory now: all
/// of them, or none while the game's data is not loaded. One of each is to be
/// removed, in the order in which they were queued.
pub fn remove_queued_display_items(
    queue: &mut DisplayItemQueue,
    game_data_loaded: bool,
) -> (items: Vec<ItemId>)
    ensures
        game_data_loaded ==> items@ == old(queue).items@ && final(queue).items@ == Seq::<
            ItemId,
        >::empty(),
        !game_data_loaded ==> items@ == Seq::<ItemId>::empty() && final(queue).items@ == old(
            queue,
        ).items@,
{
    let mut items: Vec<ItemId> = Vec::new();
    if game_data_loaded {
        items.append(&mut queue.items);
    }
    items
}

/// Two rows stand for the same location only if they encode it in the same way.
pub proof fn law_location_is_unambiguous(left: GoodsRow, right: GoodsRow)
    requires
        left.location() == right.location(),
    ensures
        left.vagrant_item_lot_id == right.vagrant_item_lot_id,
        left.vagrant_bonus_ene_drop_item_lot_id == right.vagrant_bonus_ene_drop_item_lot_id,
{
}

/// The two halves of a location can be read out of its ID where the low one is not
/// negative.
pub proof fn law_location_halves_are_recovered(row: GoodsRow, location_id: i64)
    requires
        location_id == row.location(),
        row.vagrant_item_lot_id >= 0,
    ensures
        location_id & 0xFFFF_FFFF == row.vagrant_item_lot_id,
        location_id >> 32 == row.vagrant_bonus_ene_drop_item_lot_id,
{
    let low = row.vagrant_item_lot_id as i64;
    let high = row.vagrant_bonus_ene_drop_item_lot_id as i64;
    assert(location_id & 0xFFFF_FFFF == low && location_id >> 32 == high) by (bit_vector)
        requires
            0 <= low <= 0x7FFF_FFFF,
            -0x8000_0000 <= high <= 0x7FFF_FFFF,
            location_id == low + high * 0x1_0000_0000,
    ;
}

/// Items that are no placeholders are granted as they are, and nothing else happens.
pub proof fn law_vanilla_items_are_kept(
    regulation: &RegulationManager,
    save_loaded: bool,
    entries: Seq<ItemBufferEntry>,
)
    requires
        forall|i: int| 0 <= i < entries.len() ==> !is_placeholder((#[trigger] entries[i]).id@),
    ensures
        granted_items(regulation, save_loaded, entries) == entries,
        all_grant_effects(regulation, save_loaded, entries) == Seq::<DisplayEffect>::empty(),
        placeholder_locations(regulation, entry_ids(entries)) == Set::<i64>::empty(),
    decreases entries.len(),
{
    if entries.len() > 0 {
        let last = entries.len() - 1;
        law_vanilla_items_are_kept(regulation, save_loaded, entries.drop_last());
        lemma_grant_step(regulation, save_loaded, entries, last);
        assert(entries.take(last + 1) =~= entries);
    }
}

/// While a save is loaded no placeholder is granted, provided that no placeholder
/// stands for a local item that is one again.
pub proof fn law_no_placeholder_is_granted(
    regulation: &RegulationManager,
    entries: Seq<ItemBufferEntry>,
)
    requires
        forall|i: int|
            0 <= i < entries.len() && is_placeholder((#[trigger] entries[i]).id@) ==> (
            placeholder_row(regulation, entries[i].id).local_item() matches Some((raw, _))
                ==> !is_placeholder(raw)),
    ensures
        forall|i: int|
            0 <= i < granted_items(regulation, true, entries).len() ==> !is_placeholder(
                (#[trigger] granted_items(regulation, true, entries)[i]).id@,
            ),
    decreases entries.len(),
{
    broadcast use ItemId::lemma_view_of_from_raw;

    if entries.len() > 0 {
        let last = entries.len() - 1;
        let before = granted_items(regulation, true, entries.take(last));
        law_no_placeholder_is_granted(regulation, entries.take(last));
        lemma_grant_step(regulation, true, entries, last);
        assert(entries.take(last + 1) =~= entries);
        assert forall|i: int|
            0 <= i < granted_items(regulation, true, entries).len() implies !is_placeholder(
            (#[trigger] granted_items(regulation, true, entries)[i]).id@,
        ) by {
            assert(i < before.len() ==> granted_items(regulation, true, entries)[i] == before[i]);
        }
    }
}

/// The items that `effects` queue for removal, in order.
pub open spec fn cleanups(effects: Seq<DisplayEffect>) -> Seq<ItemId> {
    effects.filter_map(
        |effect: DisplayEffect|
            match effect {
                DisplayEffect::QueueCleanup(id) => Some(id),
                _ => None,
            },
    )
}

/// The display items that `entries` are granted as, in order.
pub open spec fn display_items(
    regulation: &RegulationManager,
    save_loaded: bool,
    entries: Seq<ItemBufferEntry>,
) -> Seq<ItemId> {
    entries.filter_map(
        |entry: ItemBufferEntry|
            match displayed_as(regulation, save_loaded, entry) {
                Some(raw) => Some(ItemId::from_raw(raw)),
                None => None,
            },
    )
}

/// Every display item that is granted is queued for removal once, and nothing else is.
pub proof fn law_display_items_are_cleaned_up(
    regulation: &RegulationManager,
    save_loaded: bool,
    entries: Seq<ItemBufferEntry>,
)
    ensures
        cleanups(all_grant_effects(regulation, save_loaded, entries)) == display_items(
            regulation,
            save_loaded,
            entries,
        ),
    decreases entries.len(),
{
    let effects = all_grant_effects(regulation, save_loaded, entries);
    if entries.len() > 0 {
        let last = entries.len() - 1;
        let rest = entries.drop_last();
        law_display_items_are_cleaned_up(regulation, save_loaded, rest);
        lemma_grant_step(regulation, save_loaded, entries, last);
        assert(entries.take(last + 1) =~= entries);
        let before = all_grant_effects(regulation, save_loaded, rest);
        match displayed_as(regulation, save_loaded, entries[last]) {
            Some(raw) => {
                let display = DisplayEffect::SetDisplay(
                    ItemId::from_raw(raw),
                    pickup_display(regulation, raw),
                );
                assert(effects.drop_last() =~= before.push(display));
                assert(before.push(display).drop_last() =~= before);
                assert(cleanups(before.push(display)) == cleanups(before));
            },
            None => {},
        }
    }
}

} // verus!
