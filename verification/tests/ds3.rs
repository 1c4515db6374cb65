//! The client for Dark Souls III.

use std::collections::{HashMap, HashSet};

use ap_client::client::{CommandStep, Core as SharedCore, EventRequest, LiveStep};
use ap_client::clock::WallTime;
use ap_client::config::Config;
use ap_client::core_base::{ConnectionFault, ConnectionStateType, Event, FaultKind, Frame};
use ap_client::ds3::{
    Core, DeathLinkOption, DeathLinkStep, FlagAccess, Grant, InstalledDlc, Options, Session,
    ShopItem, is_event_flag, DEATH_LINK_GRACE_PERIOD,
};
use ap_client::error::{CoreError, MissingDlc};
use ap_client::inventory::{InventoryAction, InventoryItem, PlaceholderRow};
use ap_client::items::{ItemStack, ItemTable, ReceivedItem, SaveData};
use ap_client::print::{Print, RichText, TextColor};

const SECOND: u64 = 1_000_000_000;

fn client_with(debug: bool) -> Core {
    let config = Config::new(
        "url".to_string(),
        "me".to_string(),
        "seed".to_string(),
        None,
        None,
    );
    Core::new(config, 0, debug)
}

fn client() -> Core {
    client_with(false)
}

fn session(death_link: DeathLinkOption, amnesty: u32) -> Session {
    Session {
        seed: "seed".to_string(),
        player: "me".to_string(),
        options: Options { enable_dlc: true, death_link, death_link_amnesty: amnesty },
    }
}

fn save() -> Option<SaveData> {
    Some(SaveData::new())
}

fn logs(core: &Core) -> Vec<String> {
    let logs = core.base().logs();
    (0..logs.len())
        .map(|i| logs.get(i).data.iter().map(|part| part.text()).collect())
        .collect()
}

fn last_log(core: &Core) -> &Print {
    core.base().logs().get(core.base().logs().len() - 1)
}

fn wall(secs: i64) -> WallTime {
    WallTime { secs, nanos: 0 }
}

#[test]
fn the_game_is_named_to_the_server() {
    assert_eq!(client().base().new_connection().game, "Dark Souls III");
    assert_eq!(client().seed(), "seed");
}

#[test]
fn live_steps_run_in_order() {
    let mut steps = vec![LiveStep::Start];
    while *steps.last().unwrap() != LiveStep::Finished {
        steps.push(Core::update_live(*steps.last().unwrap(), &Ok(()), true));
    }
    assert_eq!(
        steps,
        vec![
            LiveStep::Start,
            LiveStep::CheckSeed,
            LiveStep::CheckDlc,
            LiveStep::Events,
            LiveStep::SendDeathLink,
            LiveStep::IncomingItems,
            LiveStep::InventoryItems,
            LiveStep::ShopHints,
            LiveStep::Goal,
            LiveStep::Finished,
        ]
    );
    for step in steps {
        let failed = Err(CoreError::Failed("x".to_string()));
        assert_eq!(Core::update_live(step, &failed, true), LiveStep::Finished);
        assert_eq!(Core::update_live(step, &Ok(()), false), LiveStep::Finished);
    }
}

#[test]
fn the_save_takes_on_the_seed() {
    let mut save = save();
    assert!(client().check_seed_conflict(None, &mut save).is_ok());
    assert_eq!(save.as_ref().unwrap().seed.as_deref(), Some("seed"));
    let session = session(DeathLinkOption::Off, 1);
    assert!(client().check_seed_conflict(Some(&session), &mut save).is_ok());
    assert_eq!(save.unwrap().seed.as_deref(), Some("seed"));
    assert!(client().check_seed_conflict(Some(&session), &mut None).is_ok());
}

#[test]
fn seeds_in_conflict_are_refused() {
    let mut other = session(DeathLinkOption::Off, 1);
    other.seed = "other".to_string();
    let mut unseen = save();
    assert!(matches!(
        client().check_seed_conflict(Some(&other), &mut unseen),
        Err(CoreError::RoomSeedConflict { room, config, .. }) if room == "other" && config == "seed"
    ));
    assert!(unseen.unwrap().seed.is_none());

    let mut played = save();
    played.as_mut().unwrap().seed = Some("old".to_string());
    assert!(matches!(
        client().check_seed_conflict(Some(&session(DeathLinkOption::Off, 1)), &mut played),
        Err(CoreError::SaveSeedConflict { room, save }) if room == "seed" && save == "old"
    ));
    assert!(matches!(
        client().check_seed_conflict(None, &mut played),
        Err(CoreError::RandomizerSeedConflict { config, save, .. })
            if config == "seed" && save == "old"
    ));
    assert!(matches!(
        client().check_seed_conflict(Some(&other), &mut played),
        Err(CoreError::RoomSeedConflict { .. })
    ));
    assert_eq!(played.unwrap().seed.as_deref(), Some("old"));
}

#[test]
fn missing_content_is_an_error_once_in_game() {
    let with = session(DeathLinkOption::Off, 1);
    let mut without = session(DeathLinkOption::Off, 1);
    without.options.enable_dlc = false;
    for (first, second, missing) in [
        (true, true, None),
        (true, false, Some(MissingDlc::RingedCity)),
        (false, true, Some(MissingDlc::AshesOfAriandel)),
        (false, false, Some(MissingDlc::Both)),
    ] {
        let dlc = Some(InstalledDlc { ashes_of_ariandel: first, ringed_city: second });
        match (client().check_dlc_error(Some(&with), dlc, true), missing) {
            (Ok(()), None) => {}
            (Err(CoreError::MissingDlc(found)), Some(missing)) => assert_eq!(found, missing),
            other => panic!("unexpected {other:?}"),
        }
        assert!(client().check_dlc_error(Some(&with), dlc, false).is_ok());
        assert!(client().check_dlc_error(Some(&without), dlc, true).is_ok());
        assert!(client().check_dlc_error(None, dlc, true).is_ok());
        assert!(client().check_dlc_error(Some(&with), None, true).is_ok());
    }
}

#[test]
fn death_links_need_a_session_the_option_and_the_grace_period() {
    let core = client();
    let on = session(DeathLinkOption::AnyDeath, 1);
    assert_eq!(DEATH_LINK_GRACE_PERIOD, 30 * SECOND);
    assert!(!core.allow_death_link(Some(&on), 30 * SECOND - 1));
    assert!(core.allow_death_link(Some(&on), 30 * SECOND));
    assert!(!core.allow_death_link(None, 30 * SECOND));
    let off = session(DeathLinkOption::Off, 1);
    assert!(!core.allow_death_link(Some(&off), 30 * SECOND));
    let souls = session(DeathLinkOption::LostSouls, 1);
    assert!(core.allow_death_link(Some(&souls), 30 * SECOND));
}

#[test]
fn a_death_link_kills_the_player_once() {
    let mut core = client();
    let on = session(DeathLinkOption::AnyDeath, 1);
    let now = 100 * SECOND;
    assert!(core.receive_death_link("other", wall(1000), Some(&on), true, now, wall(1000)));
    assert!(!core.receive_death_link("other", wall(1000), Some(&on), true, now, wall(1000)));
    assert!(!core.receive_death_link(
        "other",
        wall(1029),
        Some(&on),
        true,
        now + 29 * SECOND,
        wall(1029)
    ));
    assert!(core.receive_death_link(
        "other",
        wall(1030),
        Some(&on),
        true,
        now + 30 * SECOND,
        wall(1030)
    ));
}

#[test]
fn own_and_stale_death_links_are_ignored() {
    let mut core = client();
    let on = session(DeathLinkOption::AnyDeath, 1);
    let now = 100 * SECOND;
    // The session started a hundred seconds ago, at 900 on the wall clock.
    assert!(!core.receive_death_link("me", wall(1000), Some(&on), true, now, wall(1000)));
    assert!(!core.receive_death_link("other", wall(899), Some(&on), true, now, wall(1000)));
    assert!(!core.receive_death_link("other", wall(929), Some(&on), true, now, wall(1000)));
    assert!(!core.receive_death_link("other", wall(1000), Some(&on), false, now, wall(1000)));
    assert!(!core.receive_death_link("other", wall(1000), None, true, now, wall(1000)));
    assert!(core.receive_death_link("other", wall(930), Some(&on), true, now, wall(1000)));
}

#[test]
fn waiting_death_links_are_dealt_with_once() {
    let mut core = client();
    let on = session(DeathLinkOption::AnyDeath, 1);
    let events = || {
        vec![
            Event::Other,
            Event::DeathLink { source: "me".to_string(), time: wall(1000) },
            Event::DeathLink { source: "other".to_string(), time: wall(1000) },
            Event::DeathLink { source: "other".to_string(), time: wall(1000) },
        ]
    };
    let fault = ConnectionFault { kind: FaultKind::Other, text: String::new() };
    core.base_mut().update_always(ConnectionStateType::Connected, events(), &fault);
    // On the main menu the events go on waiting.
    assert!(!core.process_events(Some(&on), false, true, 100 * SECOND, wall(1000)));
    assert!(core.process_events(Some(&on), true, true, 100 * SECOND, wall(1000)));
    assert!(!core.process_events(Some(&on), true, true, 200 * SECOND, wall(1100)));
    core.base_mut().update_always(ConnectionStateType::Connected, events(), &fault);
    assert!(!core.process_events(Some(&on), true, false, 300 * SECOND, wall(1000)));
    assert!(core.take_events().is_empty());
}

#[test]
fn a_received_death_link_is_not_passed_on() {
    let mut core = client();
    let on = session(DeathLinkOption::AnyDeath, 1);
    let mut save = save();
    let now = 100 * SECOND;
    assert!(core.receive_death_link("other", wall(1000), Some(&on), true, now, wall(1000)));
    let step = core.send_death_link(Some(&on), Some(0), true, &mut save, now);
    assert_eq!(step, DeathLinkStep::Idle);
    let step = core.send_death_link(Some(&on), Some(0), true, &mut save, now + 29 * SECOND);
    assert_eq!(step, DeathLinkStep::Idle);
    assert_eq!(save.unwrap().deaths, 0);
}

#[test]
fn every_death_counts_until_amnesty_ends() {
    let mut core = client();
    let on = session(DeathLinkOption::AnyDeath, 3);
    let mut save = save();
    let mut sent = 0;
    for death in 1..=7u64 {
        let now = death * 30 * SECOND;
        if core.send_death_link(Some(&on), Some(0), false, &mut save, now) == DeathLinkStep::Send {
            sent += 1;
            core.death_link_sent(&mut save, now);
        }
        assert_eq!(sent, death / 3);
        assert_eq!(u64::from(save.as_ref().unwrap().deaths), death % 3);
        // The player stays dead for a while.
        let step = core.send_death_link(Some(&on), Some(0), false, &mut save, now + SECOND);
        assert_eq!(step, DeathLinkStep::Idle);
    }
    assert_eq!(
        logs(&core),
        vec![
            "You have been granted death link amnesty. 2 deaths remain.",
            "You have been granted death link amnesty. 1 death remains.",
            "You have sent a death link to your teammates.",
            "You have been granted death link amnesty. 2 deaths remain.",
            "You have been granted death link amnesty. 1 death remains.",
            "You have sent a death link to your teammates.",
            "You have been granted death link amnesty. 2 deaths remain.",
        ]
    );
}

#[test]
fn without_amnesty_every_death_is_sent() {
    for amnesty in [0, 1] {
        let mut core = client();
        let on = session(DeathLinkOption::AnyDeath, amnesty);
        let mut save = save();
        let step = core.send_death_link(Some(&on), Some(0), false, &mut save, 30 * SECOND);
        assert_eq!(step, DeathLinkStep::Send);
        core.death_link_sent(&mut save, 30 * SECOND);
        assert_eq!(save.unwrap().deaths, 0);
    }
}

#[test]
fn a_death_link_that_cannot_be_sent_is_not_forgotten() {
    let mut core = client();
    let on = session(DeathLinkOption::AnyDeath, 1);
    let mut save = save();
    let step = core.send_death_link(Some(&on), Some(0), false, &mut save, 30 * SECOND);
    assert_eq!(step, DeathLinkStep::Send);
    assert_eq!(save.as_ref().unwrap().deaths, 1);
    let step = core.send_death_link(Some(&on), Some(0), false, &mut save, 30 * SECOND);
    assert_eq!(step, DeathLinkStep::Send);
}

#[test]
fn lost_souls_need_a_bloodstain() {
    let mut core = client();
    let souls = session(DeathLinkOption::LostSouls, 1);
    let mut save = save();
    let step = core.send_death_link(Some(&souls), Some(0), false, &mut save, 30 * SECOND);
    assert_eq!(step, DeathLinkStep::Idle);
    assert_eq!(save.as_ref().unwrap().deaths, 0);
    // This death was dealt with.
    let step = core.send_death_link(Some(&souls), Some(0), true, &mut save, 31 * SECOND);
    assert_eq!(step, DeathLinkStep::Idle);
    let step = core.send_death_link(Some(&souls), Some(0), true, &mut save, 60 * SECOND);
    assert_eq!(step, DeathLinkStep::Send);
    assert!(logs(&core).is_empty());
}

#[test]
fn the_living_send_no_death_links() {
    let mut core = client();
    let on = session(DeathLinkOption::AnyDeath, 1);
    let mut save = save();
    for hp in [None, Some(1), Some(-1)] {
        let step = core.send_death_link(Some(&on), hp, true, &mut save, 30 * SECOND);
        assert_eq!(step, DeathLinkStep::Idle);
    }
    let step = core.send_death_link(Some(&on), Some(0), true, &mut None, 30 * SECOND);
    assert_eq!(step, DeathLinkStep::Idle);
    assert!(core.allow_death_link(Some(&on), 30 * SECOND));
}

fn table() -> ItemTable {
    ItemTable {
        item_ids: HashMap::from([(1, 0x4000_03E8), (2, 0x4000_2346), (3, 0x0000_2346)]),
        item_counts: HashMap::from([(1, 5)]),
    }
}

fn received(ids: &[i64]) -> Vec<ReceivedItem> {
    ids.iter().enumerate().map(|(index, id)| ReceivedItem { index, id: *id }).collect()
}

#[test]
fn items_are_granted_in_order_one_per_second() {
    let mut core = client();
    let table = table();
    let items = received(&[1, 2, 3]);
    let mut save = save();
    let mut grant = |save: &mut Option<SaveData>, now: u64| {
        core.process_incoming_items(Some(&items), &table, true, save, now)
    };
    assert_eq!(grant(&mut save, SECOND - 1), None);
    assert_eq!(
        grant(&mut save, SECOND),
        Some((
            0,
            Grant::Item { stack: ItemStack { id: 0x4000_03E8, quantity: 5 }, durability: -1 }
        ))
    );
    assert_eq!(save.as_ref().unwrap().items_granted, 1);
    assert_eq!(grant(&mut save, 2 * SECOND - 1), None);
    assert_eq!(
        grant(&mut save, 2 * SECOND),
        Some((1, Grant::Gesture { gesture: 29, item: 0x4000_2346 }))
    );
    assert_eq!(
        grant(&mut save, 3 * SECOND),
        Some((
            2,
            Grant::Item { stack: ItemStack { id: 0x0000_2346, quantity: 1 }, durability: -1 }
        ))
    );
    assert_eq!(grant(&mut save, 4 * SECOND), None);
    assert_eq!(save.unwrap().items_granted, 3);
}

#[test]
fn items_wait_for_the_game_and_the_save() {
    let mut core = client();
    let table = table();
    let items = received(&[1]);
    let mut none = None;
    let mut save = save();
    let now = 10 * SECOND;
    assert_eq!(core.process_incoming_items(Some(&items), &table, false, &mut save, now), None);
    assert_eq!(core.process_incoming_items(None, &table, true, &mut save, now), None);
    assert!(!core.may_grant(Some(&items), true, &none, now));
    assert_eq!(core.process_incoming_items(Some(&items), &table, false, &mut none, now), None);
    assert_eq!(core.process_incoming_items(None, &table, true, &mut none, now), None);
    assert!(none.is_none());
    assert!(!core.may_grant(Some(&items), false, &save, now));
    assert!(!core.may_grant(None, true, &save, now));
    assert!(core.may_grant(Some(&items), true, &save, now));
    assert_eq!(save.as_ref().unwrap().items_granted, 0);
    assert!(core.process_incoming_items(Some(&items), &table, true, &mut save, now).is_some());
    assert!(!core.may_grant(Some(&items), true, &save, now));
}

#[test]
fn a_new_file_gets_its_save_data() {
    for now in [0, 10 * SECOND] {
        let mut core = client();
        let mut save = None;
        let items = received(&[1]);
        assert_eq!(core.process_incoming_items(Some(&items), &table(), true, &mut save, now), None);
        let data = save.as_ref().unwrap();
        assert_eq!(data.seed, None);
        assert_eq!(data.items_granted, 0);
        assert!(data.locations.is_empty());
        assert_eq!(data.deaths, 0);
        let later = now + SECOND;
        assert!(core
            .process_incoming_items(Some(&items), &table(), true, &mut save, later)
            .is_some());
        assert_eq!(save.unwrap().items_granted, 1);
    }
}

#[test]
fn an_item_that_the_game_lacks_is_found_out() {
    let table = table();
    let items = received(&[1, 77]);
    assert_eq!(table.unknown_next(&items, 0), None);
    assert_eq!(table.unknown_next(&items, 1), Some(77));
    assert_eq!(table.unknown_next(&items, 2), None);
}

fn placeholder(id: u32, location: i64, icon: Option<i16>, item: Option<ItemStack>) -> InventoryItem {
    InventoryItem { id, row: Some(PlaceholderRow { location, goods_icon: icon, item }) }
}

#[test]
fn placeholders_become_what_they_stand_for() {
    let core = client();
    let stack = ItemStack { id: 500, quantity: 3 };
    let items = vec![
        InventoryItem { id: 1, row: None },
        placeholder(2, 20, None, Some(stack)),
        placeholder(3, 30, Some(7039), Some(stack)),
        placeholder(4, 40, Some(1), None),
        placeholder(5, 20, None, None),
    ];
    let mut save = save();
    let plan = core.process_inventory_items(&items, true, true, &mut save);
    let remove = |id| InventoryAction::RemoveItem { stack: ItemStack { id, quantity: 1 } };
    assert_eq!(
        plan.actions,
        vec![
            InventoryAction::GiveItem { stack },
            remove(2),
            InventoryAction::AcquireGesture { gesture: 29 },
            remove(3),
            remove(4),
            remove(5),
        ]
    );
    assert!(plan.report);
    assert_eq!(save.unwrap().locations, HashSet::from([20, 30, 40]));
}

#[test]
fn locations_are_reported_until_the_server_knows_them() {
    let mut core = client();
    let mut save = save();
    let found = vec![placeholder(2, 20, None, None)];
    assert!(!core.process_inventory_items(&found, true, false, &mut save).report);
    assert!(core.process_inventory_items(&vec![], true, true, &mut save).report);
    core.locations_reported(&save);
    assert!(!core.process_inventory_items(&vec![], true, true, &mut save).report);
    assert!(!core.process_inventory_items(&found, true, true, &mut save).report);
    let more = vec![placeholder(3, 21, None, None)];
    assert!(core.process_inventory_items(&more, true, true, &mut save).report);
    // After a restart all of them are told again.
    let restarted = client_with(false);
    assert!(restarted.process_inventory_items(&vec![], true, true, &mut save).report);
}

#[test]
fn the_inventory_waits_for_the_game_and_the_save() {
    let core = client();
    let found = vec![placeholder(2, 20, None, None)];
    let mut save = save();
    let plan = core.process_inventory_items(&found, false, true, &mut save);
    assert!(plan.actions.is_empty() && !plan.report);
    assert!(save.unwrap().locations.is_empty());
    let plan = core.process_inventory_items(&found, true, true, &mut None);
    assert!(plan.actions.is_empty() && !plan.report);
}

#[test]
fn shops_are_hinted_once() {
    let mut core = client();
    let item = |id, location| ShopItem { id, location };
    let shop = vec![
        item(1, None),
        item(2, Some(20)),
        item(3, Some(30)),
        item(2, Some(20)),
    ];
    assert_eq!(core.send_shop_hints(&shop, true), Some(vec![20, 30]));
    core.hints_sent(&shop);
    assert_eq!(core.send_shop_hints(&shop, true), None);
    let restocked = vec![item(2, Some(20)), item(4, Some(40))];
    assert_eq!(core.send_shop_hints(&restocked, true), Some(vec![40]));
    assert_eq!(core.send_shop_hints(&vec![], true), None);
}

#[test]
fn hints_that_were_not_sent_are_tried_again() {
    let mut core = client();
    let shop = vec![ShopItem { id: 9, location: Some(90) }];
    assert_eq!(core.send_shop_hints(&shop, false), None);
    // The server refuses the first try.
    assert_eq!(core.send_shop_hints(&shop, true), Some(vec![90]));
    assert_eq!(core.send_shop_hints(&shop, true), Some(vec![90]));
    core.hints_sent(&shop);
    assert_eq!(core.send_shop_hints(&shop, true), None);
}

#[test]
fn hints_are_not_remembered_across_loads() {
    let mut core = client();
    let shop = vec![ShopItem { id: 9, location: Some(90) }];
    core.hints_sent(&shop);
    let frame = |is_main_menu| Frame {
        state: ConnectionStateType::Connected,
        events: vec![],
        fault: ConnectionFault { kind: FaultKind::Other, text: String::new() },
        connected: true,
        is_main_menu,
        now: 0,
    };
    core.update(frame(false), "1");
    assert_eq!(core.send_shop_hints(&shop, true), None);
    core.update(frame(true), "1");
    assert_eq!(core.send_shop_hints(&shop, true), Some(vec![90]));
}

#[test]
fn what_setevent_is_told_getevent_gives_back() {
    let mut core = client_with(true);
    for (flag, value) in [(0, true), (71, false), (13_000_050, true)] {
        let CommandStep::Access(write) =
            core.handle_command("!setevent", Some(&format!("{flag}   {value}")))
        else {
            panic!("the flag is not set");
        };
        assert_eq!(write, EventRequest::Write { flag, value });
        let CommandStep::Access(read) = core.handle_command("!getevent", Some(&flag.to_string()))
        else {
            panic!("the flag is not read");
        };
        assert_eq!(read, EventRequest::Read { flag });
        core.finish_access(read, FlagAccess::Done { value });
        assert_eq!(last_log(&core).text(), format!("Event {flag}: {value}"));
    }
}

#[test]
fn the_goal_is_sent_once() {
    let mut core = client();
    assert!(!core.handle_goal(None, true));
    assert!(!core.handle_goal(Some(&vec![true, false]), true));
    assert!(!core.handle_goal(Some(&vec![true, true]), false));
    assert!(core.handle_goal(Some(&vec![true, true]), true));
    assert!(core.handle_goal(Some(&vec![]), true));
    core.goal_sent();
    assert!(!core.handle_goal(Some(&vec![true, true]), true));
}

#[test]
fn commands_are_recognised() {
    let mut core = client_with(true);
    assert_eq!(
        core.handle_command("!getevent", Some("12")),
        CommandStep::Access(EventRequest::Read { flag: 12 })
    );
    assert_eq!(
        core.handle_command("!setevent", Some("12 true")),
        CommandStep::Access(EventRequest::Write { flag: 12, value: true })
    );
    assert_eq!(core.handle_command("!hint", Some("12")), CommandStep::Unhandled);
    assert_eq!(core.handle_command("!GETEVENT", Some("12")), CommandStep::Unhandled);
    assert!(logs(&core).is_empty());
}

#[test]
fn debugging_commands_are_only_for_debugging() {
    let mut core = client();
    assert_eq!(core.handle_command("!setevent", Some("12 true")), CommandStep::Unhandled);
    assert_eq!(core.handle_command("!setevent", Some("x")), CommandStep::Unhandled);
    assert!(logs(&core).is_empty());
}

#[test]
fn bad_arguments_are_answered_with_usage() {
    let mut core = client_with(true);
    for arg in [None, Some(""), Some("x"), Some("12 13")] {
        assert_eq!(core.handle_command("!getevent", arg), CommandStep::Handled);
        let print = last_log(&core);
        assert!(matches!(
            &print.data[0],
            RichText::Color { text, color: TextColor::Red } if text == "Invalid !getevent."
        ));
        assert_eq!(print.data[1].text(), " Usage:\n");
        assert_eq!(print.data[2].text(), "!getevent EVENT_FLAG");
    }
    for arg in [None, Some("12"), Some("12 yes"), Some("12 true x")] {
        assert_eq!(core.handle_command("!setevent", arg), CommandStep::Handled);
        assert_eq!(
            logs(&core).last().unwrap(),
            "Invalid !setevent. Usage:\n!setevent EVENT_FLAG BOOL"
        );
    }
}

#[test]
fn numbers_that_are_no_flags_are_refused() {
    let mut core = client_with(true);
    for (flag, valid) in [
        (0, true),
        (13_000_050, true),
        (8_999_999, true),
        (9_000_000, false),
        (9_999_999, false),
        (10_000_000, true),
        (98_999_999, true),
        (99_000_000, false),
        (99_999_999, false),
        (100_000_000, false),
        (u32::MAX, false),
    ] {
        assert_eq!(is_event_flag(flag), valid, "{flag}");
        let read = core.handle_command("!getevent", Some(&flag.to_string()));
        let write = core.handle_command("!setevent", Some(&format!("{flag} true")));
        if valid {
            assert_eq!(read, CommandStep::Access(EventRequest::Read { flag }));
            assert_eq!(write, CommandStep::Access(EventRequest::Write { flag, value: true }));
        } else {
            assert_eq!(read, CommandStep::Handled);
            assert_eq!(write, CommandStep::Handled);
            let refusal = format!("Invalid event ID: {flag}");
            assert_eq!(logs(&core).last(), Some(&refusal));
            assert!(matches!(last_log(&core).data[0], RichText::Color { color: TextColor::Red, .. }));
        }
    }
    assert_eq!(core.base().logs().len(), 12);
}

#[test]
fn flag_accesses_are_reported() {
    let mut core = client();
    let read = EventRequest::Read { flag: 71 };
    let write = EventRequest::Write { flag: 71, value: false };
    core.finish_access(read, FlagAccess::NotLoaded);
    core.finish_access(read, FlagAccess::Done { value: true });
    let print = last_log(&core);
    assert!(matches!(print.data[1], RichText::Color { color: TextColor::Blue, .. }));
    assert!(matches!(print.data[3], RichText::Color { color: TextColor::Green, .. }));
    core.finish_access(write, FlagAccess::NotLoaded);
    core.finish_access(write, FlagAccess::Done { value: false });
    assert!(matches!(last_log(&core).data[3], RichText::Color { color: TextColor::Red, .. }));
    assert_eq!(
        logs(&core),
        vec![
            "SprjEventFlagMan not loaded",
            "Event 71: true",
            "SprjEventFlagMan not loaded",
            "Set event 71 to false",
        ]
    );
}

#[test]
fn the_log_can_be_written_through_the_client() {
    let mut core = client();
    core.log(Print::message("hello".to_string()));
    assert_eq!(logs(&core), vec!["hello"]);
}
