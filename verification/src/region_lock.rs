//! Region-lock items and the companion goods that they also grant.

use vstd::prelude::*;

use crate::item_id::{goods_item_id, ItemId, FIRST_GOODS_ID};
use crate::text::same_text;

verus! {

/// A region-lock item.
#[derive(Clone, Copy, Debug, PartialEq, Eq, Structural)]
pub enum RegionLock {
    /// Comes with the left and right halves of the Dectus Medallion.
    Altus,
    /// Comes with the Rold Medallion.
    Mountaintops,
    /// Comes with the left and right halves of the Haligtree Secret Medallion.
    ConsecratedSnowfield,
    /// Comes with the Pureblood Knight's Medal.
    Mohgwyn,
}

impl RegionLock {
    /// The Archipelago item name of the lock.
    pub open spec fn name(self) -> Seq<char> {
        match self {
            RegionLock::Altus => "Altus Lock"@,
            RegionLock::Mountaintops => "Mountaintops Lock"@,
            RegionLock::ConsecratedSnowfield => "Consecrated Snowfield Lock"@,
            RegionLock::Mohgwyn => "Mohgwyn Lock"@,
        }
    }

    /// The goods parameter ID of the lock.
    pub open spec fn er_param_id(self) -> u32 {
        match self {
            RegionLock::Altus => 60003,
            RegionLock::Mountaintops => 60007,
            RegionLock::ConsecratedSnowfield => 60009,
            RegionLock::Mohgwyn => 60010,
        }
    }

    /// The parameter IDs of the goods that come with the lock.
    pub open spec fn companions(self) -> Seq<u32> {
        match self {
            RegionLock::Altus => seq![8105u32, 8106u32],
            RegionLock::Mountaintops => seq![8107u32],
            RegionLock::ConsecratedSnowfield => seq![8175u32, 8176u32],
            RegionLock::Mohgwyn => seq![2160u32],
        }
    }

    /// Returns the parameter IDs of the goods that come with the lock.
    pub fn companion_goods(self) -> (goods: Vec<u32>)
        ensures
            goods@ == self.companions(),
    {
        let goods: Vec<u32> = match self {
            RegionLock::Altus => vec![8105, 8106],
            RegionLock::Mountaintops => vec![8107],
            RegionLock::ConsecratedSnowfield => vec![8175, 8176],
            RegionLock::Mohgwyn => vec![2160],
        };
        goods
    }
}

/// The goods that come with the item of this name: none if it is no region lock.
pub open spec fn goods_for_name(item_name: Seq<char>) -> Seq<u32> {
    if item_name == RegionLock::Altus.name() {
        RegionLock::Altus.companions()
    } else if item_name == RegionLock::Mountaintops.name() {
        RegionLock::Mountaintops.companions()
    } else if item_name == RegionLock::ConsecratedSnowfield.name() {
        RegionLock::ConsecratedSnowfield.companions()
    } else if item_name == RegionLock::Mohgwyn.name() {
        RegionLock::Mohgwyn.companions()
    } else {
        Seq::empty()
    }
}

/// The goods that come with the goods of this parameter ID: none if those are no
/// region lock.
pub open spec fn goods_for_param_id(param_id: u32) -> Seq<u32> {
    if param_id == RegionLock::Altus.er_param_id() {
        RegionLock::Altus.companions()
    } else if param_id == RegionLock::Mountaintops.er_param_id() {
        RegionLock::Mountaintops.companions()
    } else if param_id == RegionLock::ConsecratedSnowfield.er_param_id() {
        RegionLock::ConsecratedSnowfield.companions()
    } else if param_id == RegionLock::Mohgwyn.er_param_id() {
        RegionLock::Mohgwyn.companions()
    } else {
        Seq::empty()
    }
}

/// Returns the parameter IDs of the goods that come with the item of the given name.
pub fn companion_region_lock_goods(item_name: &str) -> (goods: Vec<u32>)
    ensures
        goods@ == goods_for_name(item_name@),
{
    if same_text(item_name, "Altus Lock") {
        RegionLock::Altus.companion_goods()
    } else if same_text(item_name, "Mountaintops Lock") {
        RegionLock::Mountaintops.companion_goods()
    } else if same_text(item_name, "Consecrated Snowfield Lock") {
        RegionLock::ConsecratedSnowfield.companion_goods()
    } else if same_text(item_name, "Mohgwyn Lock") {
        RegionLock::Mohgwyn.companion_goods()
    } else {
        Vec::new()
    }
}

/// Returns the parameter IDs of the goods that come with the goods of the given
/// parameter ID.
pub fn companion_goods_for_er_lock_id(er_item_id: u32) -> (goods: Vec<u32>)
    ensures
        goods@ == goods_for_param_id(er_item_id),
{
    if er_item_id == 60003 {
        RegionLock::Altus.companion_goods()
    } else if er_item_id == 60007 {
        RegionLock::Mountaintops.companion_goods()
    } else if er_item_id == 60009 {
        RegionLock::ConsecratedSnowfield.companion_goods()
    } else if er_item_id == 60010 {
        RegionLock::Mohgwyn.companion_goods()
    } else {
        Vec::new()
    }
}

/// The item of the goods with this parameter ID.
pub open spec fn goods_item(goods_id: u32) -> ItemId {
    ItemId::from_raw((FIRST_GOODS_ID + goods_id) as u32)
}

/// The items of goods with these parameter IDs.
pub open spec fn goods_items(goods: Seq<u32>) -> Seq<ItemId> {
    goods.map_values(|goods_id: u32| goods_item(goods_id))
}

/// Whether each of these is the parameter ID of goods rather than too large for one.
pub open spec fn are_goods_ids(goods: Seq<u32>) -> bool {
    forall|i: int|
        0 <= i < goods.len() ==> #[trigger] goods[i] < crate::item_id::PARAM_IDS_PER_CATEGORY
}

/// Returns the items of goods with the given parameter IDs.
pub fn goods_item_ids(goods: &Vec<u32>) -> (ids: Vec<ItemId>)
    requires
        are_goods_ids(goods@),
    ensures
        ids@ == goods_items(goods@),
{
    let mut ids: Vec<ItemId> = Vec::new();
    let mut index: usize = 0;
    while index < goods.len()
        invariant
            index <= goods@.len(),
            are_goods_ids(goods@),
            ids@ == goods_items(goods@.take(index as int)),
        decreases goods@.len() - index,
    {
        broadcast use ItemId::lemma_from_raw_of_view;

        ids.push(goods_item_id(goods[index]));
        index = index + 1;
    }
    ids
}

/// The two ways to find the goods that come with a region lock agree on every lock.
pub proof fn law_companions_agree(lock: RegionLock)
    ensures
        goods_for_name(lock.name()) == lock.companions(),
        goods_for_param_id(lock.er_param_id()) == lock.companions(),
        are_goods_ids(lock.companions()),
{
    reveal_strlit("Altus Lock");
    reveal_strlit("Mountaintops Lock");
    reveal_strlit("Consecrated Snowfield Lock");
    reveal_strlit("Mohgwyn Lock");
    // No two names are of the same length.
    assert("Mountaintops Lock"@.len() == 17);
    assert("Consecrated Snowfield Lock"@.len() == 26);
    assert("Mohgwyn Lock"@.len() == 12);
}

} // verus!
