use std::collections::{HashMap, HashSet};

use er_archipelago::inventory::InventoryEntry;
use er_archipelago::item_id::{ItemId, ItemIdError};
use er_archipelago::slot_data::{
    expand_virtual_location_checks, int_to_bool, DeserializableItemId, EventFlagId, I64Key,
    MarkerRequirement, Options, SlotData,
};

fn item(raw: u32) -> ItemId {
    ItemId::try_from(raw).unwrap()
}

fn empty_slot_data() -> SlotData {
    SlotData {
        goal: Vec::new(),
        ap_ids_to_item_ids: HashMap::new(),
        item_counts: HashMap::new(),
        non_deprioritized_progression_item_ids: HashSet::new(),
        priority_marker_flags: HashMap::new(),
        priority_marker_requirements: HashMap::new(),
        virtual_location_triggers: HashMap::new(),
        local_virtual_location_items: HashMap::new(),
        virtual_location_display_items: HashMap::new(),
        region_lock_item_flags: HashMap::new(),
        options: Options { enable_dlc: false },
    }
}

fn triggers(entries: &[(i64, &[i64])]) -> HashMap<i64, Vec<i64>> {
    entries.iter().map(|(trigger, children)| (*trigger, children.to_vec())).collect()
}

fn set(ids: &[i64]) -> HashSet<i64> {
    ids.iter().copied().collect()
}

#[test]
fn expansion_follows_chains() {
    let triggers = triggers(&[(1, &[2, 3]), (3, &[4]), (5, &[6])]);
    let mut locations = set(&[1]);
    assert!(expand_virtual_location_checks(&mut locations, &triggers));
    assert_eq!(locations, set(&[1, 2, 3, 4]));
}

#[test]
fn expansion_ends_on_cycles() {
    let triggers = triggers(&[(1, &[2]), (2, &[1, 2])]);
    let mut locations = set(&[2]);
    assert!(expand_virtual_location_checks(&mut locations, &triggers));
    assert_eq!(locations, set(&[1, 2]));
}

#[test]
fn expanding_twice_changes_nothing_more() {
    let triggers = triggers(&[(10, &[-1]), (-1, &[i64::MAX])]);
    let mut locations = set(&[10, 20]);
    assert!(expand_virtual_location_checks(&mut locations, &triggers));
    let once = locations.clone();
    assert!(!expand_virtual_location_checks(&mut locations, &triggers));
    assert_eq!(locations, once);
    assert_eq!(once, set(&[10, 20, -1, i64::MAX]));
}

#[test]
fn expansion_without_triggers_changes_nothing() {
    let mut locations = set(&[1, 2]);
    assert!(!expand_virtual_location_checks(&mut locations, &HashMap::new()));
    assert_eq!(locations, set(&[1, 2]));
    let mut nothing = set(&[]);
    assert!(!expand_virtual_location_checks(&mut nothing, &triggers(&[(1, &[2])])));
    assert!(nothing.is_empty());
}

#[test]
fn more_locations_expand_to_more() {
    let triggers = triggers(&[(1, &[2]), (3, &[4])]);
    let mut fewer = set(&[1]);
    let mut more = set(&[1, 3]);
    expand_virtual_location_checks(&mut fewer, &triggers);
    expand_virtual_location_checks(&mut more, &triggers);
    assert!(fewer.is_subset(&more));
    assert_eq!(more, set(&[1, 2, 3, 4]));
}

#[test]
fn slot_data_expands_its_own_triggers() {
    let mut slot_data = empty_slot_data();
    slot_data.virtual_location_triggers = triggers(&[(7, &[8])]);
    let mut locations = set(&[7]);
    assert!(slot_data.expand_virtual_location_checks(&mut locations));
    assert_eq!(locations, set(&[7, 8]));
}

#[test]
fn trigger_of_a_virtual_location_is_found() {
    let mut slot_data = empty_slot_data();
    slot_data.virtual_location_triggers = triggers(&[(7, &[8, 9]), (10, &[11])]);
    assert_eq!(slot_data.virtual_location_trigger(9), Some(7));
    assert_eq!(slot_data.virtual_location_trigger(11), Some(10));
    assert_eq!(slot_data.virtual_location_trigger(7), None);
}

#[test]
fn one_of_several_triggers_is_found() {
    let mut slot_data = empty_slot_data();
    slot_data.virtual_location_triggers = triggers(&[(7, &[9]), (10, &[9])]);
    let trigger = slot_data.virtual_location_trigger(9);
    assert!(trigger == Some(7) || trigger == Some(10));
}

#[test]
fn virtual_locations_hold_what_the_slot_data_says() {
    let mut slot_data = empty_slot_data();
    slot_data.local_virtual_location_items.insert(5, 500);
    slot_data.virtual_location_display_items.insert(6, DeserializableItemId(item(0x4000_0001)));
    assert_eq!(slot_data.local_virtual_location_item(5), Some(500));
    assert_eq!(slot_data.local_virtual_location_item(6), None);
    assert_eq!(slot_data.virtual_location_display_item(6), Some(item(0x4000_0001)));
    assert_eq!(slot_data.virtual_location_display_item(5), None);
}

#[test]
fn items_are_granted_once_unless_counted() {
    let mut slot_data = empty_slot_data();
    slot_data.ap_ids_to_item_ids.insert(1, DeserializableItemId(item(0x4000_0064)));
    slot_data.item_counts.insert(1, 5);
    slot_data.item_counts.insert(2, 0);
    assert_eq!(slot_data.er_item_id(1), Some(item(0x4000_0064)));
    assert_eq!(slot_data.er_item_id(2), None);
    assert_eq!(slot_data.item_quantity(1), 5);
    assert_eq!(slot_data.item_quantity(2), 0);
    assert_eq!(slot_data.item_quantity(3), 1);
}

#[test]
fn requirements_are_evaluated() {
    let owns = |id: i64| id == 1;
    let checked = |id: i64| id == 2;
    assert!(MarkerRequirement::Item(1).is_met_with(&owns, &checked));
    assert!(!MarkerRequirement::Item(2).is_met_with(&owns, &checked));
    assert!(MarkerRequirement::Location(2).is_met_with(&owns, &checked));
    assert!(!MarkerRequirement::Location(1).is_met_with(&owns, &checked));
    assert!(!MarkerRequirement::Never.is_met_with(&owns, &checked));
}

#[test]
fn requirements_nest() {
    let owns = |id: i64| id == 1;
    let checked = |id: i64| id == 2;
    let requirement = MarkerRequirement::All(vec![
        MarkerRequirement::Item(1),
        MarkerRequirement::Any(vec![MarkerRequirement::Never, MarkerRequirement::Location(2)]),
    ]);
    assert!(requirement.is_met_with(&owns, &checked));
    assert!(!requirement.is_met_with(&owns, &|_: i64| false));
    assert!(!requirement.is_met_with(&|_: i64| false, &checked));
}

#[test]
fn empty_requirements_have_a_meaning() {
    let no = |_: i64| false;
    assert!(MarkerRequirement::All(Vec::new()).is_met_with(&no, &no));
    assert!(!MarkerRequirement::Any(Vec::new()).is_met_with(&no, &no));
}

#[test]
fn met_requirement_stays_met() {
    let requirement = MarkerRequirement::Any(vec![
        MarkerRequirement::All(vec![MarkerRequirement::Item(1), MarkerRequirement::Location(2)]),
        MarkerRequirement::Never,
    ]);
    assert!(requirement.is_met_with(&|id: i64| id == 1, &|id: i64| id == 2));
    assert!(requirement.is_met_with(&|id: i64| id <= 1, &|id: i64| id >= 2));
}

#[test]
fn items_are_owned_by_receipt_or_in_the_inventory() {
    let mut slot_data = empty_slot_data();
    slot_data.ap_ids_to_item_ids.insert(1, DeserializableItemId(item(0x4000_0064)));
    let held = vec![InventoryEntry { item_id: item(0x4000_0064), quantity: 1 }];
    let used_up = vec![InventoryEntry { item_id: item(0x4000_0064), quantity: 0 }];
    assert!(slot_data.has_ap_item(&vec![9, 1], None, 1));
    assert!(!slot_data.has_ap_item(&vec![9], None, 1));
    assert!(slot_data.has_ap_item(&vec![9], Some(&held), 1));
    assert!(!slot_data.has_ap_item(&vec![9], Some(&used_up), 1));
    assert!(!slot_data.has_ap_item(&vec![9], Some(&held), 2));
    assert!(slot_data.has_er_inventory_item(Some(&held), 1));
    assert!(!slot_data.has_er_inventory_item(None, 1));
}

#[test]
fn marker_needs_a_requirement() {
    let mut slot_data = empty_slot_data();
    let all_checked = |_: i64| true;
    assert!(!slot_data.marker_requirement_met(&vec![1], None, &all_checked, 50));
    slot_data.priority_marker_requirements.insert(50, MarkerRequirement::Item(1));
    slot_data.priority_marker_requirements.insert(51, MarkerRequirement::Location(60));
    assert!(slot_data.marker_requirement_met(&vec![1], None, &all_checked, 50));
    assert!(!slot_data.marker_requirement_met(&vec![], None, &all_checked, 50));
    assert!(slot_data.marker_requirement_met(&vec![], None, &all_checked, 51));
    assert!(!slot_data.marker_requirement_met(&vec![], None, &|id: i64| id != 60, 51));
}

#[test]
fn keys_are_decimal() {
    assert_eq!(I64Key::try_from("42").unwrap(), I64Key(42));
    assert_eq!(I64Key::try_from("-42").unwrap(), I64Key(-42));
    assert_eq!(I64Key::try_from("+007").unwrap(), I64Key(7));
    assert_eq!(I64Key::try_from("9223372036854775807").unwrap(), I64Key(i64::MAX));
    assert_eq!(I64Key::try_from("-9223372036854775808").unwrap(), I64Key(i64::MIN));
}

#[test]
fn other_text_is_no_key() {
    for text in ["", "-", "+", " 1", "1 ", "0x10", "1_000", "--1", "9223372036854775808"] {
        assert!(I64Key::try_from(text).is_err(), "{text:?}");
    }
}

#[test]
fn keys_fail_as_integers_do() {
    for text in ["", "-", "x", "12x", "9223372036854775808", "-9223372036854775809"] {
        assert_eq!(I64Key::try_from(text).unwrap_err(), text.parse::<i64>().unwrap_err());
    }
    let kind = |text: &str| I64Key::try_from(text).unwrap_err().kind().clone();
    assert_eq!(kind(""), std::num::IntErrorKind::Empty);
    assert_eq!(kind("x"), std::num::IntErrorKind::InvalidDigit);
    assert_eq!(kind("9223372036854775808"), std::num::IntErrorKind::PosOverflow);
    assert_eq!(kind("-9223372036854775809"), std::num::IntErrorKind::NegOverflow);
}

#[test]
fn keys_read_back_from_their_text() {
    for key in [0, 7, -7, 10, 1_234_567_890_123, i64::MAX, i64::MIN] {
        assert_eq!(I64Key::try_from(format!("{key}").as_str()).unwrap(), I64Key(key));
    }
}

#[test]
fn item_ids_come_as_numbers() {
    let id = DeserializableItemId::try_from(0x4000_0064).unwrap();
    assert_eq!(id.0, item(0x4000_0064));
    assert_eq!(
        DeserializableItemId::try_from(0x3000_0000),
        Err(ItemIdError::InvalidCategory(3))
    );
}

#[test]
fn event_flags_are_numbers() {
    assert_eq!(u32::from(EventFlagId(71_000)), 71_000);
}

#[test]
fn every_integer_but_zero_is_true() {
    assert!(!int_to_bool(0));
    assert!(int_to_bool(1));
    assert!(int_to_bool(u64::MAX));
}
