use std::collections::{HashMap, HashSet};

use er_archipelago::display::ItemGetDisplay;
use er_archipelago::item::{
    on_grant_items, read_placeholder, remove_queued_display_items, should_show_item_get_dialog,
    show_item_get_dialog, show_virtual_location_display_item, suppress_item_get_dialog,
    DisplayEffect, DisplayItemQueue, EquipParam, EquipParamExt, GoodsRow, ItemBufferEntry,
    PlaceholderError, RegulationManager,
};
use er_archipelago::item_id::{goods_item_id, ItemId};
use er_archipelago::save_data::SaveData;

const LOGGED: ItemGetDisplay = ItemGetDisplay { show_log: true, show_dialog: 0 };
const WITH_DIALOG: ItemGetDisplay = ItemGetDisplay { show_log: true, show_dialog: 2 };

fn blank() -> GoodsRow {
    GoodsRow {
        vagrant_item_lot_id: 0,
        vagrant_bonus_ene_drop_item_lot_id: 0,
        basic_price: 0,
        sell_value: 0,
        appearance_replace_item_id: 0,
        icon_id: 0,
    }
}

fn local_row() -> GoodsRow {
    GoodsRow { vagrant_item_lot_id: 11, basic_price: 0x4000_0064, sell_value: 3, ..blank() }
}

fn foreign_row(appearance_replace_item_id: i32) -> GoodsRow {
    GoodsRow { vagrant_item_lot_id: 12, appearance_replace_item_id, ..blank() }
}

fn regulation(rows: &[(ItemId, EquipParam)]) -> RegulationManager {
    RegulationManager {
        rows: rows.iter().map(|(id, row)| (id.into_inner(), *row)).collect::<HashMap<_, _>>(),
    }
}

fn entry(id: ItemId) -> ItemBufferEntry {
    ItemBufferEntry { id, quantity: 2, durability: 50, gem: 60 }
}

fn save() -> Option<SaveData> {
    Some(SaveData {
        items_granted: 4,
        locations: HashSet::from([1]),
        seed: Some("seed".to_string()),
        local_virtual_items_granted: HashSet::from([2]),
        foreign_virtual_items_notified: HashSet::from([3]),
    })
}

fn placeholder() -> ItemId {
    goods_item_id(3_780_001)
}

#[test]
fn local_placeholder_becomes_its_item() {
    let regulation = regulation(&[(placeholder(), EquipParam::Goods(local_row()))]);
    let mut items = vec![entry(placeholder())];
    let mut save = save();
    let effects = on_grant_items(&mut items, &regulation, &mut save);
    assert_eq!(
        items,
        vec![ItemBufferEntry {
            id: goods_item_id(100),
            quantity: 3,
            durability: u32::MAX,
            gem: 60,
        }]
    );
    assert!(effects.is_empty());
    let save = save.unwrap();
    assert_eq!(save.locations, HashSet::from([1, 11]));
    assert_eq!(save.items_granted, 4);
    assert_eq!(save.seed.as_deref(), Some("seed"));
}

#[test]
fn foreign_placeholder_becomes_its_display_item() {
    let display = goods_item_id(500);
    let progression = EquipParam::Goods(GoodsRow { icon_id: 15363, ..blank() });
    let regulation = regulation(&[
        (placeholder(), EquipParam::Goods(foreign_row(500))),
        (display, progression),
    ]);
    let mut items = vec![entry(placeholder())];
    let mut save = save();
    let effects = on_grant_items(&mut items, &regulation, &mut save);
    assert_eq!(
        items,
        vec![ItemBufferEntry { id: display, quantity: 1, durability: u32::MAX, gem: u32::MAX }]
    );
    assert_eq!(
        effects,
        vec![
            DisplayEffect::SetDisplay(display, WITH_DIALOG),
            DisplayEffect::QueueCleanup(display),
        ]
    );
    assert_eq!(save.unwrap().locations, HashSet::from([1, 12]));
}

#[test]
fn foreign_placeholder_without_a_display_item_is_dropped() {
    let regulation = regulation(&[(placeholder(), EquipParam::Goods(foreign_row(0)))]);
    let mut items = vec![entry(placeholder()), entry(goods_item_id(7))];
    let mut save = save();
    let effects = on_grant_items(&mut items, &regulation, &mut save);
    assert_eq!(items, vec![entry(goods_item_id(7))]);
    assert!(effects.is_empty());
    assert_eq!(save.unwrap().locations, HashSet::from([1, 12]));
}

#[test]
fn without_a_save_foreign_placeholders_stay() {
    let other = goods_item_id(3_780_002);
    let regulation = regulation(&[
        (placeholder(), EquipParam::Goods(foreign_row(500))),
        (other, EquipParam::Goods(local_row())),
    ]);
    let mut items = vec![entry(placeholder()), entry(other)];
    let mut save = None;
    let effects = on_grant_items(&mut items, &regulation, &mut save);
    assert_eq!(items[0], entry(placeholder()));
    assert_eq!(items[1].id, goods_item_id(100));
    assert!(effects.is_empty());
    assert!(save.is_none());
}

#[test]
fn vanilla_items_are_granted_as_they_are() {
    let regulation = regulation(&[]);
    let before = vec![entry(goods_item_id(3_780_000)), entry(ItemId::try_from(5).unwrap())];
    let mut items = before.clone();
    let mut save = save();
    let effects = on_grant_items(&mut items, &regulation, &mut save);
    assert_eq!(items, before);
    assert!(effects.is_empty());
    assert_eq!(save.unwrap().locations, HashSet::from([1]));
}

#[test]
fn many_items_are_handled_in_order() {
    let second = goods_item_id(3_780_002);
    let third = goods_item_id(3_780_003);
    let regulation = regulation(&[
        (placeholder(), EquipParam::Goods(foreign_row(0))),
        (second, EquipParam::Goods(GoodsRow { vagrant_item_lot_id: 20, ..foreign_row(500) })),
        (third, EquipParam::Goods(GoodsRow { vagrant_item_lot_id: 30, ..local_row() })),
    ]);
    let vanilla = goods_item_id(9);
    let mut items =
        vec![entry(placeholder()), entry(vanilla), entry(second), entry(placeholder()), entry(third)];
    let mut save = save();
    let effects = on_grant_items(&mut items, &regulation, &mut save);
    let ids: Vec<ItemId> = items.iter().map(|item| item.id).collect();
    assert_eq!(ids, vec![vanilla, goods_item_id(500), goods_item_id(100)]);
    assert_eq!(
        effects,
        vec![
            DisplayEffect::SetDisplay(goods_item_id(500), LOGGED),
            DisplayEffect::QueueCleanup(goods_item_id(500)),
        ]
    );
    assert_eq!(save.unwrap().locations, HashSet::from([1, 12, 20, 30]));
}

#[test]
fn locations_are_encoded_in_two_halves() {
    let row = GoodsRow {
        vagrant_item_lot_id: 5,
        vagrant_bonus_ene_drop_item_lot_id: 2,
        ..blank()
    };
    assert_eq!(row.archipelago_location_id(), 0x2_0000_0005);
    let negative = GoodsRow {
        vagrant_item_lot_id: -1,
        vagrant_bonus_ene_drop_item_lot_id: 1,
        ..blank()
    };
    assert_eq!(negative.archipelago_location_id(), 0xFFFF_FFFF);
    let least = GoodsRow { vagrant_bonus_ene_drop_item_lot_id: i32::MIN, ..blank() };
    assert_eq!(least.archipelago_location_id(), i64::MIN);
}

#[test]
fn different_halves_are_different_locations() {
    let halves = [i32::MIN, -1, 0, 1, i32::MAX];
    let mut seen = HashSet::new();
    for low in halves {
        for high in [-1, 0, 1, i32::MAX] {
            let row = GoodsRow {
                vagrant_item_lot_id: low,
                vagrant_bonus_ene_drop_item_lot_id: high,
                ..blank()
            };
            assert!(seen.insert(row.archipelago_location_id()));
        }
    }
}

#[test]
fn halves_are_recovered_from_a_location() {
    for low in [0, 1, i32::MAX] {
        for high in [i32::MIN, -1, 0, 1, i32::MAX] {
            let row = GoodsRow {
                vagrant_item_lot_id: low,
                vagrant_bonus_ene_drop_item_lot_id: high,
                ..blank()
            };
            let location = row.archipelago_location_id();
            assert_eq!(location & 0xFFFF_FFFF, low as i64);
            assert_eq!(location >> 32, high as i64);
        }
    }
}

#[test]
fn location_and_item_are_read_apart() {
    let no_item = GoodsRow { vagrant_item_lot_id: 5, basic_price: 0x3000_0000, ..blank() };
    assert_eq!(no_item.archipelago_location_id(), 5);
    let far = GoodsRow {
        vagrant_item_lot_id: -1,
        vagrant_bonus_ene_drop_item_lot_id: i32::MIN,
        ..local_row()
    };
    assert_eq!(far.archipelago_item(), Some((goods_item_id(100), 3)));
}

#[test]
fn items_are_encoded_in_the_prices() {
    assert_eq!(local_row().archipelago_item(), Some((goods_item_id(100), 3)));
    assert_eq!(blank().archipelago_item(), None);
    let gem = GoodsRow { basic_price: i32::MIN + 7, sell_value: -1, ..blank() };
    assert_eq!(
        gem.archipelago_item(),
        Some((ItemId::try_from(0x8000_0007).unwrap(), u32::MAX))
    );
}

#[test]
fn placeholders_without_a_meaning_are_errors() {
    let gem = goods_item_id(3_780_002);
    let invalid = goods_item_id(3_780_003);
    let far = goods_item_id(3_780_004);
    let fine = goods_item_id(3_780_005);
    let regulation = regulation(&[
        (gem, EquipParam::Gem),
        (invalid, EquipParam::Goods(GoodsRow { basic_price: 0x3000_0000, ..blank() })),
        (
            far,
            EquipParam::Goods(GoodsRow {
                vagrant_item_lot_id: -1,
                vagrant_bonus_ene_drop_item_lot_id: i32::MIN,
                ..blank()
            }),
        ),
        (fine, EquipParam::Goods(local_row())),
    ]);
    assert_eq!(read_placeholder(&regulation, placeholder()), Err(PlaceholderError::NoRow));
    assert_eq!(read_placeholder(&regulation, gem), Err(PlaceholderError::NotGoods));
    assert_eq!(
        read_placeholder(&regulation, invalid),
        Err(PlaceholderError::InvalidItem(0x3000_0000))
    );
    assert_eq!(read_placeholder(&regulation, far), Err(PlaceholderError::LocationOutOfRange));
    assert_eq!(read_placeholder(&regulation, fine), Ok(local_row()));
}

#[test]
fn icons_decide_on_the_dialog() {
    let progression = goods_item_id(1);
    let useful = goods_item_id(2);
    let filler = goods_item_id(3);
    let weapon = goods_item_id(4);
    let regulation = regulation(&[
        (progression, EquipParam::Goods(GoodsRow { icon_id: 15363, ..blank() })),
        (useful, EquipParam::Goods(GoodsRow { icon_id: 15333, ..blank() })),
        (filler, EquipParam::Goods(GoodsRow { icon_id: 15334, ..blank() })),
        (weapon, EquipParam::Weapon),
    ]);
    assert!(should_show_item_get_dialog(&regulation, progression));
    assert!(should_show_item_get_dialog(&regulation, useful));
    assert!(!should_show_item_get_dialog(&regulation, filler));
    assert!(!should_show_item_get_dialog(&regulation, weapon));
    assert!(!should_show_item_get_dialog(&regulation, goods_item_id(5)));
    assert_eq!(show_item_get_dialog(), WITH_DIALOG);
    assert_eq!(suppress_item_get_dialog(), LOGGED);
}

#[test]
fn rows_are_found_by_their_item() {
    let id = goods_item_id(1);
    let regulation = regulation(&[(id, EquipParam::Goods(local_row())), (placeholder(), EquipParam::Protector)]);
    assert_eq!(regulation.get_equip_param(id), Some(EquipParam::Goods(local_row())));
    assert_eq!(regulation.get_equip_param(goods_item_id(2)), None);
    assert_eq!(regulation.get_goods(id), Some(local_row()));
    assert_eq!(regulation.get_goods(placeholder()), None);
    assert_eq!(EquipParam::Accessory.as_goods(), None);
}

#[test]
fn virtual_display_items_are_granted_and_cleaned_up() {
    let id = goods_item_id(500);
    let regulation =
        regulation(&[(id, EquipParam::Goods(GoodsRow { icon_id: 15333, ..blank() }))]);
    assert_eq!(
        show_virtual_location_display_item(Some(&regulation), id),
        vec![
            DisplayEffect::SetDisplay(id, WITH_DIALOG),
            DisplayEffect::Grant(id),
            DisplayEffect::QueueCleanup(id),
        ]
    );
}

#[test]
fn virtual_display_items_without_a_row_are_skipped() {
    let id = goods_item_id(500);
    assert_eq!(show_virtual_location_display_item(Some(&regulation(&[])), id), vec![]);
    assert_eq!(show_virtual_location_display_item(None, id), vec![]);
}

#[test]
fn display_items_are_removed_once_the_game_is_loaded() {
    let mut queue = DisplayItemQueue::new();
    queue.queue_display_item_cleanup(goods_item_id(1));
    queue.queue_display_item_cleanup(goods_item_id(2));
    queue.queue_display_item_cleanup(goods_item_id(1));
    assert_eq!(remove_queued_display_items(&mut queue, false), vec![]);
    assert_eq!(
        remove_queued_display_items(&mut queue, true),
        vec![goods_item_id(1), goods_item_id(2), goods_item_id(1)]
    );
    assert_eq!(remove_queued_display_items(&mut queue, true), vec![]);
}
