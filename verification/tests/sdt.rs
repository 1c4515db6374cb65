//! The client for Sekiro.

use std::collections::{HashMap, HashSet};

use ap_client::client::{CommandStep, Core as SharedCore, LiveStep};
use ap_client::config::Config;
use ap_client::core_base::{ConnectionFault, ConnectionStateType, Event, FaultKind};
use ap_client::error::CoreError;
use ap_client::inventory::{InventoryAction, InventoryItem, PlaceholderRow};
use ap_client::items::{ItemStack, ItemTable, ReceivedItem, SaveData};
use ap_client::sdt::{set_notice, Core, InventoryStep, NoticeFlags, QuietGrant};

const SECOND: u64 = 1_000_000_000;

fn new_core() -> Core {
    let config = Config::new(
        "url".to_string(),
        "me".to_string(),
        "seed".to_string(),
        None,
        None,
    );
    Core::new(config, 0)
}

fn new_save() -> Option<SaveData> {
    Some(SaveData::new())
}

#[test]
fn sekiro_is_named_to_the_server() {
    assert_eq!(new_core().base().new_connection().game, "Sekiro: Shadows Die Twice");
}

#[test]
fn sekiro_live_steps_run_in_order() {
    let mut steps = vec![LiveStep::Start];
    while *steps.last().unwrap() != LiveStep::Finished {
        steps.push(Core::update_live(*steps.last().unwrap(), &Ok(()), true));
    }
    assert_eq!(
        steps,
        vec![
            LiveStep::Start,
            LiveStep::CheckSeed,
            LiveStep::Events,
            LiveStep::IncomingItems,
            LiveStep::InventoryItems,
            LiveStep::Finished,
        ]
    );
    let failed = Err(CoreError::Failed("x".to_string()));
    assert_eq!(Core::update_live(LiveStep::CheckSeed, &failed, true), LiveStep::Finished);
    assert_eq!(Core::update_live(LiveStep::Start, &Ok(()), false), LiveStep::Finished);
}

#[test]
fn sekiro_has_no_commands() {
    let mut core = new_core();
    assert_eq!(core.handle_command("!getevent", Some("12")), CommandStep::Unhandled);
    assert_eq!(core.base().logs().len(), 0);
}

#[test]
fn sekiro_events_are_discarded() {
    let mut core = new_core();
    let fault = ConnectionFault { kind: FaultKind::Other, text: String::new() };
    core.base_mut().update_always(ConnectionStateType::Connected, vec![Event::Other], &fault);
    assert_eq!(core.take_events().len(), 1);
    assert!(core.take_events().is_empty());
}

#[test]
fn sekiro_seeds_are_checked() {
    let core = new_core();
    let mut save = new_save();
    assert!(matches!(
        core.check_seed_conflict(Some("other"), &mut save),
        Err(error @ CoreError::RoomSeedConflict { .. })
            if error.message().contains("SekiroRandomizer.exe seed: seed")
    ));
    assert!(core.check_seed_conflict(Some("seed"), &mut save).is_ok());
    assert_eq!(save.as_ref().unwrap().seed.as_deref(), Some("seed"));
    save.as_mut().unwrap().seed = Some("old".to_string());
    assert!(matches!(
        core.check_seed_conflict(Some("seed"), &mut save),
        Err(CoreError::SaveSeedConflict { .. })
    ));
    assert!(matches!(
        core.check_seed_conflict(None, &mut save),
        Err(CoreError::RandomizerSeedConflict { .. })
    ));
}

#[test]
fn sekiro_items_are_granted_once_in_order() {
    let mut core = new_core();
    let table = ItemTable {
        item_ids: HashMap::from([(1, 100), (2, 200)]),
        item_counts: HashMap::from([(2, 7)]),
    };
    let items = vec![ReceivedItem { index: 0, id: 1 }, ReceivedItem { index: 1, id: 2 }];
    let mut save = new_save();
    assert_eq!(
        core.process_incoming_items(Some(&items), &table, true, &mut save, SECOND),
        Some((0, ItemStack { id: 100, quantity: 1 }))
    );
    assert_eq!(
        core.process_incoming_items(Some(&items), &table, true, &mut save, 2 * SECOND - 1),
        None
    );
    assert!(core.may_grant(Some(&items), true, &save, 2 * SECOND));
    assert_eq!(
        core.process_incoming_items(Some(&items), &table, true, &mut save, 2 * SECOND),
        Some((1, ItemStack { id: 200, quantity: 7 }))
    );
    assert_eq!(
        core.process_incoming_items(Some(&items), &table, true, &mut save, 3 * SECOND),
        None
    );
    assert_eq!(save.unwrap().items_granted, 2);
}

#[test]
fn sekiro_gives_a_new_file_its_save_data() {
    let mut core = new_core();
    let table = ItemTable { item_ids: HashMap::new(), item_counts: HashMap::new() };
    let mut save = None;
    assert_eq!(core.process_incoming_items(Some(&vec![]), &table, false, &mut save, 0), None);
    assert_eq!(core.process_incoming_items(None, &table, true, &mut save, 0), None);
    assert!(save.is_none());
    assert_eq!(core.process_incoming_items(Some(&vec![]), &table, true, &mut save, 0), None);
    let data = save.unwrap();
    assert_eq!((data.seed, data.items_granted, data.deaths), (None, 0, 0));
    assert!(data.locations.is_empty());
}

#[test]
fn sekiro_placeholders_are_dealt_with_one_by_one() {
    let mut core = new_core();
    let stack = ItemStack { id: 500, quantity: 3 };
    let row = |location, icon, item| Some(PlaceholderRow { location, goods_icon: icon, item });
    let items = vec![
        InventoryItem { id: 1, row: None },
        InventoryItem { id: 2, row: row(20, Some(7039), Some(stack)) },
        InventoryItem { id: 3, row: row(30, None, None) },
    ];
    let mut save = new_save();
    let mut actions = Vec::new();
    let mut done = 0;
    loop {
        match core.process_inventory_items(&items, done, true, true, &mut save) {
            InventoryStep::Act(next) => {
                actions.extend(next);
                done += 1;
            }
            InventoryStep::Report => {
                core.locations_reported(&save);
                break;
            }
            InventoryStep::Finished => panic!("the locations were not reported"),
        }
    }
    let remove = |id| InventoryAction::RemoveItem { stack: ItemStack { id, quantity: 1 } };
    assert_eq!(actions, vec![InventoryAction::GiveItem { stack }, remove(2), remove(3)]);
    assert_eq!(save.as_ref().unwrap().locations, HashSet::from([20, 30]));
    let step = core.process_inventory_items(&vec![], 0, true, true, &mut save);
    assert!(matches!(step, InventoryStep::Finished));
}

#[test]
fn sekiro_inventory_waits_for_the_game_and_the_save() {
    let core = new_core();
    let items = vec![InventoryItem {
        id: 2,
        row: Some(PlaceholderRow { location: 1, goods_icon: None, item: None }),
    }];
    let mut save = new_save();
    save.as_mut().unwrap().locations.insert(9);
    let step = core.process_inventory_items(&items, 0, false, true, &mut save);
    assert!(matches!(step, InventoryStep::Finished));
    let step = core.process_inventory_items(&items, 0, true, true, &mut None);
    assert!(matches!(step, InventoryStep::Finished));
    let step = core.process_inventory_items(&items, 1, true, false, &mut save);
    assert!(matches!(step, InventoryStep::Finished));
    assert_eq!(save.as_ref().unwrap().locations.len(), 1);
    let step = core.process_inventory_items(&items, 1, true, true, &mut save);
    assert!(matches!(step, InventoryStep::Report));
}

#[test]
fn both_notice_flags_are_set() {
    let mut row = NoticeFlags { notice_log: true, notice_dialog: false };
    assert_eq!(set_notice(&mut row, false, true), (true, false));
    assert_eq!(row, NoticeFlags { notice_log: false, notice_dialog: true });
}

#[test]
fn a_quiet_grant_puts_the_notice_flags_back() {
    for notice_log in [false, true] {
        for notice_dialog in [false, true] {
            let before = NoticeFlags { notice_log, notice_dialog };
            let mut row = before;
            let quiet = QuietGrant::begin(&mut row);
            assert_eq!(row, NoticeFlags { notice_log: false, notice_dialog: false });
            quiet.finish(&mut row);
            assert_eq!(row, before);
        }
    }
}
