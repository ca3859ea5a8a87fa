//! Item IDs: a category in the top four bits and a parameter ID in the rest.

use vstd::prelude::*;

verus! {

/// Placeholder goods added for Archipelago have parameter IDs above this one.
pub const ARCHIPELAGO_GOODS_ID_START: u32 = 3_780_000;

/// The number of parameter IDs that each category has room for.
pub const PARAM_IDS_PER_CATEGORY: u32 = 0x1000_0000;

/// The item ID of the goods with parameter ID 0.
pub const FIRST_GOODS_ID: u32 = 0x4000_0000;

/// All item categories that correspond to an equipment parameter table.
#[derive(Clone, Copy, Debug, PartialEq, Eq, Hash, Structural)]
pub enum ItemCategory {
    Weapon,
    Protector,
    Accessory,
    Goods,
    Gem,
}

/// The category that the top four bits of an item ID stand for, if any.
pub open spec fn category_of(raw: u32) -> Option<ItemCategory> {
    let code = raw / PARAM_IDS_PER_CATEGORY;
    if code == 0 {
        Some(ItemCategory::Weapon)
    } else if code == 1 {
        Some(ItemCategory::Protector)
    } else if code == 2 {
        Some(ItemCategory::Accessory)
    } else if code == 4 {
        Some(ItemCategory::Goods)
    } else if code == 8 {
        Some(ItemCategory::Gem)
    } else {
        None
    }
}

/// The parameter ID that an item ID holds below its category.
pub open spec fn param_id_of(raw: u32) -> u32 {
    raw % PARAM_IDS_PER_CATEGORY
}

/// Whether an item ID stands for a placeholder that was added for Archipelago.
pub open spec fn is_placeholder(raw: u32) -> bool {
    category_of(raw) == Some(ItemCategory::Goods) && param_id_of(raw) > ARCHIPELAGO_GOODS_ID_START
}

/// Why a number is not an item ID.
#[derive(Clone, Copy, Debug, PartialEq, Eq, Structural)]
pub enum ItemIdError {
    /// No category has this code.
    InvalidCategory(u8),
}

/// An item ID whose category is known to be meaningful. Its view is the number
/// that the game uses for it.
#[derive(Clone, Copy, Debug, PartialEq, Eq, Hash, Structural)]
pub struct ItemId {
    raw: u32,
}

impl View for ItemId {
    type V = u32;

    closed spec fn view(&self) -> u32 {
        self.raw
    }
}

impl ItemId {
    #[verifier::type_invariant]
    spec fn has_category(self) -> bool {
        category_of(self.raw) is Some
    }

    /// The item ID that the game writes as `raw`.
    pub closed spec fn from_raw(raw: u32) -> ItemId {
        ItemId { raw }
    }

    /// An item ID is determined by its number.
    pub broadcast proof fn lemma_from_raw_of_view(id: ItemId)
        ensures
            #[trigger] ItemId::from_raw(id@) == id,
    {
    }

    /// The number of an item ID made from `raw` is `raw`.
    pub broadcast proof fn lemma_view_of_from_raw(raw: u32)
        ensures
            (#[trigger] ItemId::from_raw(raw))@ == raw,
    {
    }

    /// Interprets a number as an item ID.
    pub fn try_from(value: u32) -> (id: Result<ItemId, ItemIdError>)
        ensures
            id == item_id_from(value),
    {
        let code = value / PARAM_IDS_PER_CATEGORY;
        if code == 0 || code == 1 || code == 2 || code == 4 || code == 8 {
            Ok(ItemId { raw: value })
        } else {
            Err(ItemIdError::InvalidCategory(code as u8))
        }
    }

    /// Returns this ID's category.
    pub fn category(&self) -> (category: ItemCategory)
        ensures
            category_of(self@) == Some(category),
    {
        proof {
            use_type_invariant(self);
        }
        let code = self.raw / PARAM_IDS_PER_CATEGORY;
        if code == 0 {
            ItemCategory::Weapon
        } else if code == 1 {
            ItemCategory::Protector
        } else if code == 2 {
            ItemCategory::Accessory
        } else if code == 4 {
            ItemCategory::Goods
        } else {
            ItemCategory::Gem
        }
    }

    /// Returns the ID of the row in the parameter table of [category](Self::category).
    pub fn param_id(&self) -> (param_id: u32)
        ensures
            param_id == param_id_of(self@),
    {
        self.raw % PARAM_IDS_PER_CATEGORY
    }

    /// Returns the number that the game uses for this ID.
    pub fn into_inner(self) -> (raw: u32)
        ensures
            raw == self@,
    {
        self.raw
    }
}

/// The item IDs are the numbers whose top four bits are the code of a category.
pub open spec fn item_id_from(raw: u32) -> Result<ItemId, ItemIdError> {
    if category_of(raw) is Some {
        Ok(ItemId::from_raw(raw))
    } else {
        Err(ItemIdError::InvalidCategory((raw / PARAM_IDS_PER_CATEGORY) as u8))
    }
}

/// What Archipelago asks of an item ID.
pub trait ItemIdExt {
    /// Whether this ID represents a placeholder item.
    spec fn archipelago(&self) -> bool;

    /// Returns whether this ID represents a placeholder item added specifically
    /// for Archipelago.
    fn is_archipelago(&self) -> (archipelago: bool)
        ensures
            archipelago == self.archipelago(),
    ;
}

impl ItemIdExt for ItemId {
    open spec fn archipelago(&self) -> bool {
        is_placeholder(self@)
    }

    fn is_archipelago(&self) -> (archipelago: bool) {
        self.category() == ItemCategory::Goods && self.param_id() > ARCHIPELAGO_GOODS_ID_START
    }
}

/// Returns the item ID of the goods with the given parameter ID.
pub fn goods_item_id(goods_id: u32) -> (id: ItemId)
    requires
        FIRST_GOODS_ID + goods_id <= u32::MAX,
        category_of((FIRST_GOODS_ID + goods_id) as u32) is Some,
    ensures
        id@ == FIRST_GOODS_ID + goods_id,
{
    ItemId { raw: FIRST_GOODS_ID + goods_id }
}

/// The number of the item that shows a foreign placeholder's pickup: the goods
/// that its row names, unless that is no item ID or a placeholder again.
pub open spec fn foreign_display_raw(appearance_replace_item_id: i32) -> Option<u32> {
    let raw = (FIRST_GOODS_ID + appearance_replace_item_id) as u32;
    if appearance_replace_item_id > 0 && category_of(raw) is Some && !is_placeholder(raw) {
        Some(raw)
    } else {
        None
    }
}

/// Returns the item that shows the pickup of a foreign placeholder whose row holds
/// `appearance_replace_item_id`.
pub fn foreign_display_item_id(appearance_replace_item_id: i32) -> (id: Option<ItemId>)
    ensures
        id == (match foreign_display_raw(appearance_replace_item_id) {
            Some(raw) => Some(ItemId::from_raw(raw)),
            None => None,
        }),
{
    broadcast use ItemId::lemma_view_of_from_raw;

    if appearance_replace_item_id <= 0 {
        return None;
    }
    match ItemId::try_from(FIRST_GOODS_ID + appearance_replace_item_id as u32) {
        Ok(id) => if id.is_archipelago() {
            None
        } else {
            Some(id)
        },
        Err(_) => None,
    }
}

} // verus!
