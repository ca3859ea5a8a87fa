use er_archipelago::inventory::{has_goods_in_inventory, InventoryEntry};
use er_archipelago::item_id::{
    foreign_display_item_id, goods_item_id, ItemCategory, ItemId, ItemIdError, ItemIdExt,
};
use er_archipelago::region_lock::{
    companion_goods_for_er_lock_id, companion_region_lock_goods, goods_item_ids, RegionLock,
};

#[test]
fn ids_hold_a_category_and_a_parameter() {
    let cases = [
        (0x0000_0005, ItemCategory::Weapon),
        (0x1000_0005, ItemCategory::Protector),
        (0x2000_0005, ItemCategory::Accessory),
        (0x4000_0005, ItemCategory::Goods),
        (0x8000_0005, ItemCategory::Gem),
    ];
    for (raw, category) in cases {
        let id = ItemId::try_from(raw).unwrap();
        assert_eq!(id.category(), category);
        assert_eq!(id.param_id(), 5);
        assert_eq!(id.into_inner(), raw);
    }
}

#[test]
fn other_categories_are_errors() {
    for code in [3u32, 5, 6, 7, 9, 10, 11, 12, 13, 14, 15] {
        assert_eq!(
            ItemId::try_from(code << 28 | 1),
            Err(ItemIdError::InvalidCategory(code as u8))
        );
    }
    assert_eq!(ItemId::try_from(u32::MAX), Err(ItemIdError::InvalidCategory(15)));
}

#[test]
fn placeholders_are_goods_above_the_start() {
    assert!(!goods_item_id(3_780_000).is_archipelago());
    assert!(goods_item_id(3_780_001).is_archipelago());
    assert!(goods_item_id(0x0FFF_FFFF).is_archipelago());
    assert!(!goods_item_id(0).is_archipelago());
    assert!(!ItemId::try_from(3_780_001).unwrap().is_archipelago());
    assert!(!ItemId::try_from(0x8000_0000 + 3_780_001).unwrap().is_archipelago());
}

#[test]
fn goods_have_item_ids() {
    assert_eq!(goods_item_id(0).into_inner(), 0x4000_0000);
    assert_eq!(goods_item_id(8105).into_inner(), 0x4000_1FA9);
}

#[test]
fn display_items_are_goods_and_no_placeholders() {
    assert_eq!(foreign_display_item_id(0), None);
    assert_eq!(foreign_display_item_id(-1), None);
    assert_eq!(foreign_display_item_id(i32::MIN), None);
    assert_eq!(foreign_display_item_id(100), Some(goods_item_id(100)));
    assert_eq!(foreign_display_item_id(3_780_000), Some(goods_item_id(3_780_000)));
    assert_eq!(foreign_display_item_id(3_780_001), None);
}

#[test]
fn display_items_out_of_range_may_be_gems() {
    // 0x4000_0000 + 0x4000_0000 is in the category of gems, 0x5000_0000 in none.
    assert_eq!(
        foreign_display_item_id(0x4000_0000),
        Some(ItemId::try_from(0x8000_0000).unwrap())
    );
    assert_eq!(foreign_display_item_id(0x1000_0000), None);
    assert_eq!(foreign_display_item_id(i32::MAX), None);
}

#[test]
fn inventory_holds_what_it_has_some_of() {
    let id = goods_item_id(8105);
    let entries = vec![
        InventoryEntry { item_id: goods_item_id(1), quantity: 3 },
        InventoryEntry { item_id: id, quantity: 0 },
        InventoryEntry { item_id: id, quantity: 1 },
    ];
    assert!(has_goods_in_inventory(Some(&entries), id));
    assert!(!has_goods_in_inventory(Some(&entries[..2].to_vec()), id));
    assert!(!has_goods_in_inventory(Some(&entries), goods_item_id(2)));
    assert!(!has_goods_in_inventory(None, id));
}

#[test]
fn region_locks_have_companions_by_name() {
    assert_eq!(companion_region_lock_goods("Altus Lock"), vec![8105, 8106]);
    assert_eq!(companion_region_lock_goods("Mountaintops Lock"), vec![8107]);
    assert_eq!(companion_region_lock_goods("Consecrated Snowfield Lock"), vec![8175, 8176]);
    assert_eq!(companion_region_lock_goods("Mohgwyn Lock"), vec![2160]);
    assert_eq!(companion_region_lock_goods("altus lock"), Vec::<u32>::new());
    assert_eq!(companion_region_lock_goods(""), Vec::<u32>::new());
}

#[test]
fn region_locks_have_companions_by_parameter() {
    assert_eq!(companion_goods_for_er_lock_id(60003), vec![8105, 8106]);
    assert_eq!(companion_goods_for_er_lock_id(60007), vec![8107]);
    assert_eq!(companion_goods_for_er_lock_id(60009), vec![8175, 8176]);
    assert_eq!(companion_goods_for_er_lock_id(60010), vec![2160]);
    assert_eq!(companion_goods_for_er_lock_id(60004), Vec::<u32>::new());
}

#[test]
fn both_ways_to_companions_agree() {
    let locks = [
        (RegionLock::Altus, "Altus Lock", 60003),
        (RegionLock::Mountaintops, "Mountaintops Lock", 60007),
        (RegionLock::ConsecratedSnowfield, "Consecrated Snowfield Lock", 60009),
        (RegionLock::Mohgwyn, "Mohgwyn Lock", 60010),
    ];
    for (lock, name, param_id) in locks {
        assert_eq!(companion_region_lock_goods(name), lock.companion_goods());
        assert_eq!(companion_goods_for_er_lock_id(param_id), lock.companion_goods());
    }
}

#[test]
fn companions_are_goods() {
    let ids = goods_item_ids(&vec![8105, 8106]);
    assert_eq!(ids, vec![goods_item_id(8105), goods_item_id(8106)]);
}
