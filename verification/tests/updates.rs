use std::collections::{HashMap, HashSet};

use er_archipelago::client::{Client, ReceivedItem};
use er_archipelago::client_core::Core;
use er_archipelago::display::{
    ItemGetDisplay, ItemGetDisplayRestore, ITEM_GET_DISPLAY_SUPPRESSION_DURATION,
};
use er_archipelago::game::{EldenRing, HudState};
use er_archipelago::incoming::{
    next_received_item, PopupSettings, ReceivedGrant, RECEIVED_ITEM_GRANT_INTERVAL,
};
use er_archipelago::inventory::InventoryEntry;
use er_archipelago::item::{EquipParam, GoodsRow, RegulationManager};
use er_archipelago::item_id::{goods_item_id, ItemId};
use er_archipelago::locations::{
    collect_placeholders, grant_local_virtual_location_items, item_label, location_label,
    notify_foreign_virtual_location_items, received_item_location_display_name, InventoryChange,
    LocalVirtualItemGrant,
};
use er_archipelago::save_data::SaveData;
use er_archipelago::seed::{DlcError, SeedConflict, UpdateError};
use er_archipelago::slot_data::{
    DeserializableItemId, EventFlagId, MarkerRequirement, Options, SlotData,
};
use er_archipelago::sync::{flag_entries, sync_priority_location_marker, sync_region_lock};

const QUIET: PopupSettings =
    PopupSettings { show_item_popups: false, show_progression_item_popups: false };

fn slot_data() -> SlotData {
    SlotData {
        goal: vec![EventFlagId(1), EventFlagId(2)],
        ap_ids_to_item_ids: HashMap::from([
            (100, DeserializableItemId(goods_item_id(1000))),
            (101, DeserializableItemId(goods_item_id(60003))),
            (102, DeserializableItemId(goods_item_id(60010))),
        ]),
        item_counts: HashMap::from([(100, 4)]),
        non_deprioritized_progression_item_ids: HashSet::from([101]),
        priority_marker_flags: HashMap::from([(50, EventFlagId(7000)), (51, EventFlagId(7001))]),
        priority_marker_requirements: HashMap::from([(50, MarkerRequirement::Item(100))]),
        virtual_location_triggers: HashMap::from([(10, vec![20, 21, 22])]),
        local_virtual_location_items: HashMap::from([(20, 100), (22, 999)]),
        virtual_location_display_items: HashMap::from([(
            21,
            DeserializableItemId(goods_item_id(500)),
        )]),
        region_lock_item_flags: HashMap::from([(101, EventFlagId(8000))]),
        options: Options { enable_dlc: false },
    }
}

fn received(index: usize, item_id: i64, item_name: &str) -> ReceivedItem {
    ReceivedItem {
        index,
        item_id,
        item_name: item_name.to_string(),
        location_id: 20,
        location_name: "Reserve".to_string(),
        sender_team: 0,
        sender_slot: 1,
    }
}

fn client(received_items: Vec<ReceivedItem>) -> Client {
    Client {
        seed_name: "seed".to_string(),
        team: 0,
        slot: 1,
        slot_data: slot_data(),
        received_items,
    }
}

fn client_of(seed: &str) -> Client {
    Client { seed_name: seed.to_string(), ..client(Vec::new()) }
}

fn save(seed: Option<&str>) -> SaveData {
    SaveData {
        items_granted: 0,
        locations: HashSet::new(),
        seed: seed.map(str::to_string),
        local_virtual_items_granted: HashSet::new(),
        foreign_virtual_items_notified: HashSet::new(),
    }
}

fn grant(goods: u32, quantity: u32, show_popup: bool) -> ReceivedGrant {
    ReceivedGrant { id: goods_item_id(goods), quantity, show_popup }
}

#[test]
fn core_starts_with_nothing_sent() {
    let core = Core::new(5);
    assert_eq!(core.last_item_time, 5);
    assert_eq!(core.locations_sent, 0);
    assert!(!core.sent_goal);
    assert!(core.item_get_display_restores.is_empty());
}

#[test]
fn seeds_that_agree_are_fine() {
    let client = client(Vec::new());
    assert!(Core::check_seed_conflict(Some(&client), "seed", &mut Some(save(Some("seed")))).is_ok());
    assert!(Core::check_seed_conflict(Some(&client), "seed", &mut Some(save(None))).is_ok());
    assert!(Core::check_seed_conflict(Some(&client), "seed", &mut None).is_ok());
    assert!(Core::check_seed_conflict(None, "seed", &mut Some(save(Some("seed")))).is_ok());
    assert!(Core::check_seed_conflict(None, "other", &mut None).is_ok());
}

#[test]
fn room_and_configuration_conflict() {
    let client = client(Vec::new());
    let conflict =
        Core::check_seed_conflict(Some(&client), "config", &mut Some(save(Some("save")))).unwrap_err();
    assert!(matches!(conflict, SeedConflict::ClientAndConfig { .. }));
    assert_eq!(
        conflict.message(),
        "You've connected to a different Archipelago multiworld than the one that \
         EldenRingArchipelagoRandomizer.exe used!\n\nConnected room seed: seed\n\
         EldenRingArchipelagoRandomizer.exe seed: config"
    );
}

#[test]
fn room_and_save_conflict() {
    let client = client(Vec::new());
    let conflict =
        Core::check_seed_conflict(Some(&client), "seed", &mut Some(save(Some("save")))).unwrap_err();
    assert!(matches!(conflict, SeedConflict::ClientAndSave { .. }));
    assert_eq!(
        conflict.message(),
        "You've connected to a different Archipelago multiworld than the one that you used \
         before with this save!\n\nConnected room seed: seed\nSave file seed: save"
    );
}

#[test]
fn configuration_and_save_conflict() {
    let conflict =
        Core::check_seed_conflict(None, "seed", &mut Some(save(Some("save")))).unwrap_err();
    assert!(matches!(conflict, SeedConflict::ConfigAndSave { .. }));
    assert_eq!(
        conflict.message(),
        "Your most recent EldenRingArchipelagoRandomizer.exe invocation connected to a \
         different Archipealgo multiworld than the one that you used before with this \
         save!\n\nEldenRingArchipelagoRandomizer.exe seed: seed\nSave file seed: save"
    );
}

#[test]
fn dlc_is_an_error() {
    let mut client = client(Vec::new());
    assert_eq!(Core::check_dlc_error(Some(&client)), Ok(()));
    assert_eq!(Core::check_dlc_error(None), Ok(()));
    client.slot_data.options.enable_dlc = true;
    assert_eq!(Core::check_dlc_error(Some(&client)), Err(DlcError));
    assert_eq!(
        DlcError.message(),
        "DLC is enabled for this seed, but this Elden Ring Archipelago client milestone only \
         supports base-game seeds."
    );
}

#[test]
fn update_binds_a_new_save_to_the_seed() {
    let client = client(Vec::new());
    let mut save_data = Some(save(None));
    assert!(Core::start_update(Some(&client), "seed", &mut save_data).is_ok());
    assert_eq!(save_data.as_ref().unwrap().seed.as_deref(), Some("seed"));
    assert!(Core::start_update(Some(&client), "seed", &mut save_data).is_ok());
    let mut other = client_of("other");
    assert!(matches!(
        Core::start_update(Some(&other), "other", &mut save_data),
        Err(UpdateError::Seed(SeedConflict::ClientAndSave { .. }))
    ));
    other.seed_name = "seed".to_string();
    assert!(matches!(
        Core::start_update(Some(&other), "other", &mut save_data),
        Err(UpdateError::Seed(SeedConflict::ClientAndConfig { .. }))
    ));
    assert_eq!(save_data.unwrap().seed.as_deref(), Some("seed"));
}

#[test]
fn update_notes_the_seed_before_it_fails_on_dlc() {
    let mut client = client(Vec::new());
    client.slot_data.options.enable_dlc = true;
    let mut save_data = Some(save(None));
    assert!(matches!(
        Core::start_update(Some(&client), "seed", &mut save_data),
        Err(UpdateError::Dlc(DlcError))
    ));
    assert_eq!(save_data.unwrap().seed.as_deref(), Some("seed"));
}

#[test]
fn update_without_a_save_notes_nothing() {
    let mut save_data = None;
    assert!(Core::start_update(Some(&client(Vec::new())), "seed", &mut save_data).is_ok());
    assert!(save_data.is_none());
}

#[test]
fn update_without_a_connection_does_nothing() {
    let mut unbound = Some(save(None));
    assert!(Core::start_update(None, "seed", &mut unbound).is_ok());
    assert_eq!(unbound.unwrap().seed, None);
    let mut bound = Some(save(Some("save")));
    assert!(Core::start_update(None, "seed", &mut bound).is_ok());
    assert_eq!(bound.unwrap().seed.as_deref(), Some("save"));
}

#[test]
fn updates_are_live_while_connected_without_an_error() {
    let connected = client(Vec::new());
    assert!(Core::is_live(Some(&connected), false));
    assert!(!Core::is_live(Some(&connected), true));
    assert!(!Core::is_live(None, false));
}

#[test]
fn seed_check_notes_the_seed() {
    let connected = client(Vec::new());
    for client in [Some(&connected), None] {
        let mut unbound = Some(save(None));
        assert!(Core::check_seed_conflict(client, "seed", &mut unbound).is_ok());
        assert_eq!(unbound.unwrap().seed.as_deref(), Some("seed"));
    }
    let mut unbound = Some(save(None));
    assert!(Core::check_seed_conflict(Some(&connected), "other", &mut unbound).is_err());
    assert_eq!(unbound.unwrap().seed, None);
}

#[test]
fn new_file_gets_save_data() {
    let connected = client(vec![received(0, 100, "Rune")]);
    let mut core = Core::new(0);
    let now = 1_000_000_000;
    let mut save_data = None;
    assert!(core.process_incoming_items(now, QUIET, None, true, &mut save_data).is_empty());
    assert!(save_data.is_none());
    assert!(core
        .process_incoming_items(now, QUIET, Some(&connected), false, &mut save_data)
        .is_empty());
    assert!(save_data.is_none());
    assert!(core
        .process_incoming_items(now, QUIET, Some(&connected), true, &mut save_data)
        .is_empty());
    let data = save_data.as_ref().unwrap();
    assert_eq!(data.items_granted, 0);
    assert_eq!(data.seed, None);
    assert!(data.locations.is_empty());
    assert!(data.local_virtual_items_granted.is_empty());
    assert!(data.foreign_virtual_items_notified.is_empty());
    assert_eq!(core.last_item_time, 0);
    assert_eq!(
        core.process_incoming_items(now, QUIET, Some(&connected), true, &mut save_data),
        vec![grant(1000, 4, false)]
    );
}

#[test]
fn received_items_are_granted_in_order() {
    let client = client(vec![received(0, 100, "Rune"), received(1, 102, "Mohgwyn Lock")]);
    let mut core = Core::new(0);
    let mut save_data = Some(save(None));
    let now = RECEIVED_ITEM_GRANT_INTERVAL;
    assert_eq!(now, 33_000_000);

    let first = core.process_incoming_items(now, QUIET, Some(&client), true, &mut save_data);
    assert_eq!(first, vec![grant(1000, 4, false)]);
    assert_eq!(core.last_item_time, now);
    assert_eq!(save_data.as_ref().unwrap().items_granted, 1);

    let early =
        core.process_incoming_items(2 * now - 1, QUIET, Some(&client), true, &mut save_data);
    assert!(early.is_empty());

    let second = core.process_incoming_items(2 * now, QUIET, Some(&client), true, &mut save_data);
    assert_eq!(second, vec![grant(60010, 1, false), grant(2160, 1, false)]);
    assert_eq!(core.last_item_time, 2 * now);
    assert_eq!(save_data.as_ref().unwrap().items_granted, 2);

    let done = core.process_incoming_items(4 * now, QUIET, Some(&client), true, &mut save_data);
    assert!(done.is_empty());
    assert_eq!(save_data.unwrap().items_granted, 2);
}

#[test]
fn nothing_is_granted_without_a_connection_a_world_or_a_save() {
    let connected = client(vec![received(0, 100, "Rune")]);
    let mut core = Core::new(0);
    let now = 1_000_000_000;
    let mut save_data = Some(save(None));
    assert!(core.process_incoming_items(now, QUIET, None, true, &mut save_data).is_empty());
    assert!(core
        .process_incoming_items(now, QUIET, Some(&connected), false, &mut save_data)
        .is_empty());
    assert_eq!(save_data.unwrap().items_granted, 0);
    assert!(core.process_incoming_items(now, QUIET, Some(&connected), true, &mut None).is_empty());
}

#[test]
fn time_that_runs_backwards_is_no_interval() {
    let connected = client(vec![received(0, 100, "Rune")]);
    let mut core = Core::new(1_000_000_000);
    let mut save_data = Some(save(None));
    assert!(!core.is_grant_due(5));
    assert!(!core.is_grant_due(1_032_999_999));
    assert!(core.is_grant_due(1_033_000_000));
    assert!(core
        .process_incoming_items(5, QUIET, Some(&connected), true, &mut save_data)
        .is_empty());
}

#[test]
fn popups_depend_on_the_settings() {
    let connected = client(vec![received(0, 101, "Altus Lock"), received(1, 100, "Rune")]);
    let now = 1_000_000_000;
    let progression = PopupSettings { show_progression_item_popups: true, ..QUIET };
    let all = PopupSettings { show_item_popups: true, ..QUIET };
    let grants = |settings, items_granted| {
        let mut save_data = Some(SaveData { items_granted, ..save(None) });
        Core::new(0).process_incoming_items(now, settings, Some(&connected), true, &mut save_data)
    };
    assert_eq!(
        grants(progression, 0),
        vec![grant(60003, 1, true), grant(8105, 1, true), grant(8106, 1, true)]
    );
    assert_eq!(grants(progression, 1), vec![grant(1000, 4, false)]);
    assert_eq!(grants(all, 1), vec![grant(1000, 4, true)]);
    assert_eq!(grants(QUIET, 0)[0], grant(60003, 1, false));
}

#[test]
fn next_item_is_the_first_not_granted() {
    let items = vec![received(3, 1, ""), received(7, 2, ""), received(9, 3, "")];
    assert_eq!(next_received_item(&items, 0), Some(0));
    assert_eq!(next_received_item(&items, 4), Some(1));
    assert_eq!(next_received_item(&items, 9), Some(2));
    assert_eq!(next_received_item(&items, 10), None);
    assert_eq!(next_received_item(&Vec::new(), 0), None);
}

#[test]
fn displays_are_restored_after_a_while() {
    assert_eq!(ITEM_GET_DISPLAY_SUPPRESSION_DURATION, 75_000_000);
    let shown = ItemGetDisplay { show_log: false, show_dialog: 2 };
    let mut core = Core::new(0);
    core.suppress_item_get_display(goods_item_id(1), Some(shown), 10);
    assert!(core.restore_expired_item_get_displays(75_000_009).is_empty());
    assert_eq!(
        core.restore_expired_item_get_displays(75_000_010),
        vec![ItemGetDisplayRestore {
            id: goods_item_id(1),
            previous: shown,
            restore_at: 75_000_010,
        }]
    );
    assert!(core.item_get_display_restores.is_empty());
}

#[test]
fn first_display_is_the_one_restored() {
    let shown = ItemGetDisplay { show_log: false, show_dialog: 2 };
    let mut core = Core::new(0);
    core.suppress_item_get_display(goods_item_id(1), Some(shown), 10);
    core.suppress_item_get_display(goods_item_id(1), Some(ItemGetDisplay::suppressed()), 20);
    assert!(core.restore_expired_item_get_displays(75_000_010).is_empty());
    let restored = core.restore_expired_item_get_displays(75_000_020);
    assert_eq!(restored.len(), 1);
    assert_eq!(restored[0].previous, shown);
}

#[test]
fn display_that_could_not_be_changed_is_not_restored() {
    let mut core = Core::new(0);
    core.suppress_item_get_display(goods_item_id(1), None, 10);
    assert!(core.item_get_display_restores.is_empty());
}

#[test]
fn sweep_takes_exactly_what_expired() {
    let shown = ItemGetDisplay { show_log: true, show_dialog: 1 };
    let mut core = Core::new(0);
    for (goods, time) in [(1, 0), (2, 500), (3, 0), (4, 400)] {
        core.suppress_item_get_display(goods_item_id(goods), Some(shown), time);
    }
    let expired = core.restore_expired_item_get_displays(75_000_000);
    let ids: Vec<ItemId> = expired.iter().map(|restore| restore.id).collect();
    // The last one fills the gap of each one that is taken out.
    assert_eq!(ids, vec![goods_item_id(1), goods_item_id(3)]);
    let left: Vec<ItemId> =
        core.item_get_display_restores.iter().map(|restore| restore.id).collect();
    assert_eq!(left, vec![goods_item_id(4), goods_item_id(2)]);
}

#[test]
fn display_is_replaced() {
    let mut display = ItemGetDisplay { show_log: false, show_dialog: 2 };
    let previous = display.replace(ItemGetDisplay::suppressed());
    assert_eq!(previous, ItemGetDisplay { show_log: false, show_dialog: 2 });
    assert_eq!(display, ItemGetDisplay { show_log: true, show_dialog: 0 });
}

#[test]
fn marker_is_shown_while_it_is_due() {
    let owning = client(vec![received(0, 100, "Rune")]);
    let none_checked = |_: i64| false;
    let write = |client: &Client, flag| {
        sync_priority_location_marker(client, None, &none_checked, 50, flag)
    };
    assert_eq!(write(&owning, Some(false)), Some(true));
    assert_eq!(write(&owning, Some(true)), None);
    assert_eq!(write(&owning, None), Some(true));
    let owning_nothing = client(Vec::new());
    assert_eq!(write(&owning_nothing, Some(true)), Some(false));
    assert_eq!(write(&owning_nothing, Some(false)), None);
    assert_eq!(
        sync_priority_location_marker(&owning, None, &|id: i64| id == 50, 50, Some(true)),
        Some(false)
    );
    assert_eq!(
        sync_priority_location_marker(&owning, None, &none_checked, 51, Some(false)),
        None
    );
}

#[test]
fn flags_are_listed_once_each() {
    let mut entries = flag_entries(&slot_data().priority_marker_flags);
    entries.sort_by_key(|entry| entry.0);
    assert_eq!(entries, vec![(50, EventFlagId(7000)), (51, EventFlagId(7001))]);
}

#[test]
fn region_opens_once_its_item_is_owned() {
    let owning = client(vec![received(0, 101, "Altus Lock")]);
    let step = sync_region_lock(&owning, &None, None, true, 101, Some(false));
    assert!(step.set_flag);
    assert_eq!(step.companions, vec![goods_item_id(8105), goods_item_id(8106)]);
    let unreadable = sync_region_lock(&owning, &None, None, true, 101, None);
    assert!(unreadable.set_flag);
}

#[test]
fn open_region_is_left_alone() {
    let owning = client(vec![received(0, 101, "Altus Lock")]);
    let step = sync_region_lock(&owning, &None, None, true, 101, Some(true));
    assert!(!step.set_flag);
    assert!(step.companions.is_empty());
    let not_owning = client(Vec::new());
    for flag in [None, Some(false), Some(true)] {
        let step = sync_region_lock(&not_owning, &None, None, true, 101, flag);
        assert!(!step.set_flag);
        assert!(step.companions.is_empty());
    }
}

#[test]
fn region_stays_open() {
    let owning = client(vec![received(0, 101, "Altus Lock")]);
    let not_owning = client(Vec::new());
    let mut flag = false;
    let mut history = Vec::new();
    for connection in [&not_owning, &owning, &not_owning, &owning, &not_owning] {
        let step = sync_region_lock(connection, &None, None, true, 101, Some(flag));
        flag = flag || step.set_flag;
        history.push((step.set_flag, flag));
    }
    assert_eq!(
        history,
        vec![(false, false), (true, true), (false, true), (false, true), (false, true)]
    );
}

#[test]
fn pass_over_all_region_locks_sets_what_is_owned() {
    let mut owning = client(vec![received(0, 101, "Altus Lock")]);
    owning.slot_data.region_lock_item_flags =
        HashMap::from([(101, EventFlagId(1)), (102, EventFlagId(2)), (103, EventFlagId(1))]);
    let mut flags =
        HashMap::from([(EventFlagId(1), false), (EventFlagId(2), false), (EventFlagId(3), true)]);
    for (item, flag) in flag_entries(&owning.slot_data.region_lock_item_flags) {
        let value = flags.get(&flag).copied();
        if sync_region_lock(&owning, &None, None, true, item, value).set_flag {
            flags.insert(flag, true);
        }
    }
    assert_eq!(
        flags,
        HashMap::from([(EventFlagId(1), true), (EventFlagId(2), false), (EventFlagId(3), true)])
    );
}

#[test]
fn pass_over_all_markers_shows_what_is_due() {
    let owning = client(vec![received(0, 100, "Rune")]);
    let mut flags = HashMap::from([
        (EventFlagId(7000), false),
        (EventFlagId(7001), true),
        (EventFlagId(7002), true),
    ]);
    for (location, flag) in flag_entries(&owning.slot_data.priority_marker_flags) {
        let value = flags.get(&flag).copied();
        let write = sync_priority_location_marker(&owning, None, &|_: i64| false, location, value);
        if let Some(visible) = write {
            flags.insert(flag, visible);
        }
    }
    assert_eq!(
        flags,
        HashMap::from([
            (EventFlagId(7000), true),
            (EventFlagId(7001), false),
            (EventFlagId(7002), true),
        ])
    );
}

#[test]
fn companions_that_are_held_are_not_granted_again() {
    let owning = client(vec![received(0, 101, "Altus Lock")]);
    let inventory = vec![InventoryEntry { item_id: goods_item_id(8105), quantity: 1 }];
    let step = sync_region_lock(&owning, &None, Some(&inventory), true, 101, Some(false));
    assert!(step.set_flag);
    assert_eq!(step.companions, vec![goods_item_id(8106)]);
    let unloaded = sync_region_lock(&owning, &None, Some(&inventory), false, 101, Some(false));
    assert!(unloaded.set_flag);
    assert!(unloaded.companions.is_empty());
}

#[test]
fn region_opens_for_items_of_virtual_locations_and_in_the_inventory() {
    let mut client = client(Vec::new());
    client.slot_data.local_virtual_location_items.insert(30, 101);
    let mut save_data = save(None);
    save_data.local_virtual_items_granted.insert(30);
    assert!(sync_region_lock(&client, &Some(save_data), None, true, 101, Some(false)).set_flag);
    assert!(!sync_region_lock(&client, &Some(save(None)), None, true, 101, Some(false)).set_flag);
    let inventory = vec![InventoryEntry { item_id: goods_item_id(60003), quantity: 1 }];
    assert!(sync_region_lock(&client, &None, Some(&inventory), true, 101, Some(false)).set_flag);
}

fn placeholder_regulation() -> RegulationManager {
    let row = GoodsRow {
        vagrant_item_lot_id: 10,
        vagrant_bonus_ene_drop_item_lot_id: 0,
        basic_price: 0,
        sell_value: 0,
        appearance_replace_item_id: 0,
        icon_id: 0,
    };
    RegulationManager {
        rows: HashMap::from([
            (goods_item_id(3_780_001).into_inner(), EquipParam::Goods(row)),
            (
                goods_item_id(3_780_002).into_inner(),
                EquipParam::Goods(GoodsRow {
                    vagrant_item_lot_id: 40,
                    basic_price: 0x4000_0064,
                    sell_value: 2,
                    ..row
                }),
            ),
        ]),
    }
}

#[test]
fn placeholders_in_the_inventory_are_replaced() {
    let ids = vec![goods_item_id(1), goods_item_id(3_780_002), goods_item_id(3_780_001)];
    let mut save_data = save(None);
    let changes = collect_placeholders(&ids, &placeholder_regulation(), None, &mut save_data);
    assert_eq!(
        changes,
        vec![
            InventoryChange::Give(goods_item_id(100), 2),
            InventoryChange::RemoveOne(goods_item_id(3_780_002)),
            InventoryChange::RemoveOne(goods_item_id(3_780_001)),
        ]
    );
    assert_eq!(save_data.locations, HashSet::from([10, 40]));
}

#[test]
fn connection_expands_the_locations() {
    let ids = vec![goods_item_id(3_780_001)];
    let mut save_data = save(None);
    save_data.locations.insert(5);
    collect_placeholders(&ids, &placeholder_regulation(), Some(&slot_data()), &mut save_data);
    assert_eq!(save_data.locations, HashSet::from([5, 10, 20, 21, 22]));
}

#[test]
fn update_grants_shows_and_sends() {
    let mut core = Core::new(0);
    let ids = vec![goods_item_id(3_780_001)];
    let mut save_data = save(None);
    let update = core.process_inventory_items(
        9,
        &ids,
        &placeholder_regulation(),
        Some(&slot_data()),
        &mut save_data,
    );
    assert_eq!(update.changes, vec![InventoryChange::RemoveOne(goods_item_id(3_780_001))]);
    assert_eq!(
        update.grants,
        vec![LocalVirtualItemGrant {
            location_id: 20,
            ap_item_id: 100,
            er_id: goods_item_id(1000),
            quantity: 4,
        }]
    );
    assert_eq!(update.notifications, vec![(21, goods_item_id(500))]);
    let mut sent = update.locations.unwrap();
    sent.sort();
    assert_eq!(sent, vec![10, 20, 21, 22]);
    assert_eq!(save_data.local_virtual_items_granted, HashSet::from([20]));
    assert_eq!(save_data.foreign_virtual_items_notified, HashSet::from([21]));
    assert_eq!(core.last_item_time, 9);
}

#[test]
fn second_update_owes_nothing() {
    let mut core = Core::new(0);
    let mut save_data = save(None);
    let first = vec![goods_item_id(3_780_001)];
    let regulation = placeholder_regulation();
    core.process_inventory_items(9, &first, &regulation, Some(&slot_data()), &mut save_data);
    core.note_locations_sent(&vec![10, 20, 21, 22]);
    assert_eq!(core.locations_sent, 4);
    let update =
        core.process_inventory_items(9, &Vec::new(), &regulation, Some(&slot_data()), &mut save_data);
    assert!(update.changes.is_empty());
    assert!(update.grants.is_empty());
    assert!(update.notifications.is_empty());
    assert!(update.locations.is_none());
}

#[test]
fn update_without_a_connection_only_collects() {
    let mut core = Core::new(0);
    let mut save_data = save(None);
    let update = core.process_inventory_items(
        9,
        &vec![goods_item_id(3_780_001)],
        &placeholder_regulation(),
        None,
        &mut save_data,
    );
    assert_eq!(update.changes, vec![InventoryChange::RemoveOne(goods_item_id(3_780_001))]);
    assert!(update.grants.is_empty());
    assert!(update.notifications.is_empty());
    assert!(update.locations.is_none());
    assert_eq!(save_data.locations, HashSet::from([10]));
    assert_eq!(core.last_item_time, 0);
}

#[test]
fn virtual_items_are_granted_once() {
    let mut save_data = save(None);
    save_data.locations = HashSet::from([20, 22, 77]);
    let grants = grant_local_virtual_location_items(Some(&slot_data()), &mut save_data);
    assert_eq!(grants.len(), 1);
    assert_eq!(grants[0].location_id, 20);
    // Location 22 holds an item without an Elden Ring item: it stays ungranted.
    assert_eq!(save_data.local_virtual_items_granted, HashSet::from([20]));
    assert!(grant_local_virtual_location_items(Some(&slot_data()), &mut save_data).is_empty());
    save_data.local_virtual_items_granted.clear();
    assert!(grant_local_virtual_location_items(None, &mut save_data).is_empty());
    assert!(save_data.local_virtual_items_granted.is_empty());
}

#[test]
fn notifications_are_shown_once() {
    let mut save_data = save(None);
    save_data.locations = HashSet::from([20, 21]);
    assert_eq!(
        notify_foreign_virtual_location_items(Some(&slot_data()), &mut save_data),
        vec![(21, goods_item_id(500))]
    );
    assert_eq!(save_data.foreign_virtual_items_notified, HashSet::from([21]));
    assert!(notify_foreign_virtual_location_items(Some(&slot_data()), &mut save_data).is_empty());
}

#[test]
fn new_locations_are_sent() {
    let mut core = Core::new(0);
    let mut save_data = save(None);
    assert_eq!(core.locations_to_send(&save_data, true), None);
    save_data.locations.insert(7);
    assert_eq!(core.locations_to_send(&save_data, false), None);
    assert_eq!(core.locations_to_send(&save_data, true), Some(vec![7]));
    core.note_locations_sent(&vec![7]);
    assert_eq!(core.locations_to_send(&save_data, true), None);
    save_data.locations.insert(8);
    assert_eq!(core.locations_to_send(&save_data, true).map(|ids| ids.len()), Some(2));
}

#[test]
fn labels_fall_back_on_ids() {
    assert_eq!(item_label(5, Some("Rune")), "Rune");
    assert_eq!(item_label(-5, None), "<item #-5>");
    assert_eq!(item_label(i64::MIN, None), "<item #-9223372036854775808>");
    assert_eq!(location_label(0, None), "<location #0>");
    assert_eq!(location_label(1234567, None), "<location #1234567>");
    assert_eq!(location_label(1, Some("Cave")), "Cave");
}

#[test]
fn own_virtual_locations_are_called_by_both_names() {
    let client = client(Vec::new());
    let item = received(0, 100, "Rune");
    let names = |id: i64| if id == 10 { Some("Cave".to_string()) } else { None };
    assert_eq!(received_item_location_display_name(&client, &item, &names), "Cave [Reserve]");
    let unnamed = |_: i64| None;
    assert_eq!(received_item_location_display_name(&client, &item, &unnamed), "Reserve");
}

#[test]
fn other_locations_are_called_by_their_name() {
    let client = client(Vec::new());
    let names = |_: i64| Some("Cave".to_string());
    let other_slot = ReceivedItem { sender_slot: 2, ..received(0, 100, "Rune") };
    let other_team = ReceivedItem { sender_team: 1, ..received(0, 100, "Rune") };
    let untriggered = ReceivedItem { location_id: 10, ..received(0, 100, "Rune") };
    for item in [other_slot, other_team, untriggered] {
        assert_eq!(received_item_location_display_name(&client, &item, &names), "Reserve");
    }
}

#[test]
fn goal_is_reached_with_all_flags() {
    let mut core = Core::new(0);
    let goal = vec![EventFlagId(1), EventFlagId(2)];
    let all = |_: EventFlagId| Some(true);
    let one = |flag: EventFlagId| Some(flag == EventFlagId(1));
    let unreadable = |_: EventFlagId| None;
    assert!(core.handle_goal(Some(&goal), &all));
    assert!(!core.handle_goal(Some(&goal), &one));
    assert!(!core.handle_goal(Some(&goal), &unreadable));
    assert!(core.handle_goal(Some(&Vec::new()), &unreadable));
    assert!(!core.handle_goal(None, &all));
    core.note_goal_sent();
    assert!(!core.handle_goal(Some(&goal), &all));
}

#[test]
fn received_ids_are_in_order() {
    let client = client(vec![received(0, 9, ""), received(1, 7, ""), received(2, 9, "")]);
    assert_eq!(client.received_item_ids(), vec![9, 7, 9]);
}

#[test]
fn menus_are_seen() {
    assert!(EldenRing::is_main_menu(false));
    assert!(!EldenRing::is_main_menu(true));
    assert!(EldenRing::is_menu_open(false, None));
    assert!(!EldenRing::is_menu_open(true, None));
    assert!(EldenRing::is_menu_open(true, Some(HudState::ShowAll)));
    assert!(EldenRing::is_menu_open(true, Some(HudState::PopupMenu)));
    assert!(!EldenRing::is_menu_open(true, Some(HudState::Default)));
    assert!(!EldenRing::is_menu_open(true, Some(HudState::HideAll)));
}
