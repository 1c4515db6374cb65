//! The part of the client that every game shares.

use ap_client::clock::WallTime;
use ap_client::config::Config;
use ap_client::core_base::{
    ConnectionFault, ConnectionStateType, CoreBase, Event, FaultKind, Frame, UpdateStep,
    GRACE_PERIOD,
};
use ap_client::error::{CoreError, MissingDlc};
use ap_client::game::GameType;
use ap_client::log_buffer::{LogBuffer, LogSource, LOG_BUFFER_LIMIT};
use ap_client::print::{Print, PrintKind, RichText, TextColor};

const SECOND: u64 = 1_000_000_000;

fn config(version: Option<&str>) -> Config {
    Config::new(
        "archipelago.gg:12345".to_string(),
        "Ashen One".to_string(),
        "seed-1".to_string(),
        None,
        version.map(|v| v.to_string()),
    )
}

fn base() -> CoreBase {
    CoreBase::new("Dark Souls III".to_string(), config(None))
}

fn text(print: &Print) -> String {
    print.data.iter().map(|part| part.text()).collect()
}

fn logs(base: &CoreBase) -> Vec<String> {
    (0..base.logs().len()).map(|i| text(base.logs().get(i))).collect()
}

fn fault(kind: FaultKind, text: &str) -> ConnectionFault {
    ConnectionFault { kind, text: text.to_string() }
}

fn no_fault() -> ConnectionFault {
    fault(FaultKind::Other, "")
}

fn death_link() -> Event {
    Event::DeathLink { source: "Other".to_string(), time: WallTime { secs: 1, nanos: 0 } }
}

fn fatal() -> Event {
    Event::Error { fatal: true, text: "event text".to_string() }
}

fn frame(connected: bool, is_main_menu: bool, now: u64) -> Frame {
    Frame {
        state: ConnectionStateType::Connected,
        events: vec![],
        fault: no_fault(),
        connected,
        is_main_menu,
        now,
    }
}

#[test]
fn the_log_keeps_the_most_recent_messages() {
    let mut log = LogBuffer::new();
    assert_eq!(log.len(), 0);
    for i in 0..LOG_BUFFER_LIMIT + 50 {
        log.push(Print::message(i.to_string()), LogSource::Client);
        assert_eq!(log.len(), (i + 1).min(LOG_BUFFER_LIMIT));
    }
    assert_eq!(LOG_BUFFER_LIMIT, 200);
    for i in 0..LOG_BUFFER_LIMIT {
        assert_eq!(text(log.get(i)), (i + 50).to_string());
    }
}

#[test]
fn a_connection_is_requested_with_the_configuration() {
    let request = base().new_connection();
    assert_eq!(request.url, "archipelago.gg:12345");
    assert_eq!(request.game, "Dark Souls III");
    assert_eq!(request.slot, "Ashen One");
    assert_eq!(request.password, None);
    assert_eq!(request.tags, vec!["DeathLink".to_string()]);
    assert!(!request.own_world);
    assert!(request.starting_inventory);

    let config = Config::new(
        "u".to_string(),
        "s".to_string(),
        "x".to_string(),
        Some("open sesame".to_string()),
        None,
    );
    let request = CoreBase::new("g".to_string(), config).new_connection();
    assert_eq!(request.password.as_deref(), Some("open sesame"));
}

#[test]
fn reconnecting_is_announced_only_when_disconnected() {
    let mut base = base();
    base.reconnect(ConnectionStateType::Connecting);
    base.reconnect(ConnectionStateType::Connected);
    assert!(logs(&base).is_empty());
    let request = base.reconnect(ConnectionStateType::Disconnected);
    assert_eq!(logs(&base), vec!["Reconnecting..."]);
    assert_eq!(request.url, "archipelago.gg:12345");
}

#[test]
fn a_new_url_is_used_for_the_next_connection() {
    let mut base = base();
    base.update_url(ConnectionStateType::Disconnected, "localhost:38281");
    assert_eq!(logs(&base), vec!["Reconnecting..."]);
    assert_eq!(base.config().url(), "localhost:38281");
    assert_eq!(base.new_connection().url, "localhost:38281");
    base.update_url(ConnectionStateType::Connected, "elsewhere");
    assert_eq!(logs(&base).len(), 1);
    assert_eq!(base.config().url(), "elsewhere");
    assert_eq!(base.config().slot(), "Ashen One");
    assert_eq!(base.config().seed(), "seed-1");
}

#[test]
fn an_error_is_taken_once_and_leaves_a_placeholder() {
    let mut base = base();
    assert!(base.take_error().is_none());
    assert!(!base.has_error());
    base.finish_update(Err(CoreError::Failed("boom".to_string())));
    assert!(base.has_error());
    assert_eq!(base.take_error().unwrap().message(), "boom");
    assert!(base.has_error());
    assert!(matches!(base.take_error(), Some(CoreError::Elsewhere)));
    assert_eq!(base.take_error().unwrap().message(), "a full error is available elsewhere");
    base.finish_update(Ok(()));
    assert!(!base.has_error());
}

#[test]
fn prints_and_errors_are_logged_at_once() {
    let mut base = base();
    let chat = Print { kind: PrintKind::Chat, data: vec![RichText::plain("hi")] };
    base.update_always(
        ConnectionStateType::Connecting,
        vec![
            Event::Print(chat),
            Event::Error { fatal: false, text: "odd packet".to_string() },
            Event::Connected,
        ],
        &no_fault(),
    );
    assert_eq!(logs(&base), vec!["hi", "odd packet"]);
    assert!(matches!(base.logs().get(0).kind, PrintKind::Chat));
    assert!(matches!(base.logs().get(1).kind, PrintKind::Unknown));
    assert!(base.take_events().is_empty());
}

#[test]
fn a_refused_connection_is_explained() {
    for kind in [FaultKind::ConnectionRefused, FaultKind::TimedOut] {
        for state in [ConnectionStateType::Connecting, ConnectionStateType::Connected] {
            let mut base = base();
            base.update_always(state, vec![fatal()], &fault(kind, "os error"));
            let print = base.logs().get(0);
            assert_eq!(print.data.len(), 2);
            assert!(matches!(
                &print.data[0],
                RichText::Color { text, color: TextColor::Red } if text == "Connection refused. "
            ));
            assert_eq!(
                print.data[1].text(),
                "Make sure the server session is running and the URL is up-to-date."
            );
        }
    }
}

#[test]
fn other_faults_are_told_apart_by_the_state_before_them() {
    let mut base = base();
    base.update_always(
        ConnectionStateType::Connected,
        vec![fatal()],
        &fault(FaultKind::Other, "bad gateway"),
    );
    base.update_always(
        ConnectionStateType::Connecting,
        vec![fatal()],
        &fault(FaultKind::Other, "bad gateway"),
    );
    base.update_always(
        ConnectionStateType::Connecting,
        vec![Event::Connected, fatal()],
        &fault(FaultKind::Other, "bad gateway"),
    );
    assert_eq!(
        logs(&base),
        vec![
            "Connection failed: bad gateway",
            "Disconnected: bad gateway",
            "Connection failed: bad gateway",
        ]
    );
}

#[test]
fn other_events_wait_in_order() {
    let mut base = base();
    base.update_always(
        ConnectionStateType::Connected,
        vec![death_link(), Event::Print(Print::message("x".to_string())), Event::Other],
        &no_fault(),
    );
    base.update_always(ConnectionStateType::Connected, vec![Event::Other, death_link()], &no_fault());
    let events = base.take_events();
    assert_eq!(events.len(), 4);
    assert!(matches!(&events[0], Event::DeathLink { source, .. } if source == "Other"));
    assert!(matches!(events[1], Event::Other));
    assert!(matches!(events[2], Event::Other));
    assert!(matches!(events[3], Event::DeathLink { .. }));
    assert!(base.take_events().is_empty());
}

#[test]
fn events_of_a_connection_that_is_not_open_are_dropped() {
    let mut base = base();
    base.update_always(ConnectionStateType::Connecting, vec![death_link()], &no_fault());
    assert!(base.take_events().is_empty());
    base.update_always(
        ConnectionStateType::Connecting,
        vec![death_link(), Event::Connected],
        &no_fault(),
    );
    assert_eq!(base.take_events().len(), 1);
}

#[test]
fn waiting_events_go_with_their_connection() {
    let mut base = base();
    base.update_always(ConnectionStateType::Connected, vec![death_link()], &no_fault());
    base.update_always(ConnectionStateType::Connected, vec![fatal()], &no_fault());
    assert!(base.take_events().is_empty());
}

#[test]
fn an_event_in_the_batch_of_the_fatal_error_goes_too() {
    for batch in [
        vec![death_link(), fatal()],
        vec![fatal(), death_link()],
        vec![Event::Connected, Event::Other, fatal()],
    ] {
        let mut base = base();
        base.update_always(ConnectionStateType::Connected, vec![Event::Other], &no_fault());
        base.update_always(ConnectionStateType::Connected, batch, &no_fault());
        assert!(base.take_events().is_empty());
    }
}

#[test]
fn a_replaced_connection_takes_its_events_with_it() {
    let mut base = base();
    base.update_always(ConnectionStateType::Connected, vec![death_link()], &no_fault());
    base.reconnect(ConnectionStateType::Connected);
    assert!(logs(&base).is_empty());
    assert!(base.take_events().is_empty());

    base.update_always(ConnectionStateType::Connected, vec![death_link(), Event::Other], &no_fault());
    base.update_url(ConnectionStateType::Connected, "elsewhere");
    // The old connection stands until the configuration is saved.
    base.update_always(ConnectionStateType::Connected, vec![Event::Other], &no_fault());
    let request = base.url_saved();
    assert_eq!(request.url, "elsewhere");
    assert!(base.take_events().is_empty());
}

#[test]
fn events_wait_on_while_a_new_url_is_not_saved() {
    let mut base = base();
    base.update_always(ConnectionStateType::Connected, vec![death_link()], &no_fault());
    base.update_url(ConnectionStateType::Connected, "elsewhere");
    assert_eq!(base.take_events().len(), 1);
}

#[test]
fn every_message_is_written_once() {
    let mut base = base();
    base.log(Print::message("mine".to_string()));
    base.update_always(
        ConnectionStateType::Connected,
        vec![
            Event::Print(Print {
                kind: PrintKind::Chat,
                data: vec![RichText::plain("hi "), RichText::PlayerName("you".to_string())],
            }),
            Event::Error { fatal: false, text: "odd packet".to_string() },
        ],
        &no_fault(),
    );
    assert_eq!(base.take_unwritten(), vec!["[APC] mine", "[APS] hi you", "[APC] odd packet"]);
    assert!(base.take_unwritten().is_empty());
    for i in 0..300 {
        base.log(Print::message(i.to_string()));
    }
    assert_eq!(base.take_unwritten().len(), 300);
    assert_eq!(base.logs().len(), 200);
    assert_eq!(base.logs().emitted(), 303);
}

#[test]
fn every_load_has_a_grace_period() {
    let mut base = base();
    base.update(frame(true, false, 0), "1");
    assert_eq!(base.update(frame(true, false, 10 * SECOND), "1"), UpdateStep::RunLive);
    // The connection is lost, and the player goes to the main menu and back.
    assert_eq!(base.update(frame(false, false, 11 * SECOND), "1"), UpdateStep::Idle);
    assert_eq!(base.update(frame(true, false, 12 * SECOND), "1"), UpdateStep::RunLive);
    assert_eq!(base.update(frame(false, true, 13 * SECOND), "1"), UpdateStep::Idle);
    assert_eq!(base.update(frame(true, false, 14 * SECOND), "1"), UpdateStep::Idle);
    assert_eq!(base.update(frame(true, false, 23 * SECOND), "1"), UpdateStep::Idle);
    assert_eq!(base.update(frame(true, false, 24 * SECOND), "1"), UpdateStep::RunLive);
}

#[test]
fn the_version_of_the_randomizer_must_match() {
    let base = CoreBase::new("g".to_string(), config(Some("4.0.0")));
    assert!(base.check_version_conflict("4.0.0").is_ok());
    let error = base.check_version_conflict("4.0.1").unwrap_err();
    assert_eq!(
        error.message(),
        "Your apconfig.json was generated using static randomizer v4.0.0, but this client is \
         v4.0.1. Re-run the static randomizer with the current version."
    );
    let base = CoreBase::new("g".to_string(), config(None));
    assert!(base.check_version_conflict("4.0.1").is_ok());
}

#[test]
fn the_game_is_left_alone_without_a_connection() {
    let mut base = base();
    assert_eq!(base.update(frame(false, true, 0), "1"), UpdateStep::Idle);
    assert_eq!(base.update(frame(true, true, 0), "1"), UpdateStep::RunLive);
}

#[test]
fn the_game_is_left_alone_for_a_while_after_a_load() {
    let mut base = base();
    assert_eq!(GRACE_PERIOD, 10 * SECOND);
    assert_eq!(base.update(frame(true, false, 5 * SECOND), "1"), UpdateStep::Idle);
    assert_eq!(base.update(frame(true, false, 14 * SECOND), "1"), UpdateStep::Idle);
    assert_eq!(base.update(frame(true, false, 15 * SECOND - 1), "1"), UpdateStep::Idle);
    assert_eq!(base.update(frame(true, false, 15 * SECOND), "1"), UpdateStep::RunLive);
    assert_eq!(base.update(frame(true, false, 16 * SECOND), "1"), UpdateStep::RunLive);
    assert_eq!(base.update(frame(true, true, 17 * SECOND), "1"), UpdateStep::RunLive);
    assert_eq!(base.update(frame(true, false, 18 * SECOND), "1"), UpdateStep::Idle);
    assert_eq!(base.update(frame(true, false, 27 * SECOND), "1"), UpdateStep::Idle);
    assert_eq!(base.update(frame(true, false, 28 * SECOND), "1"), UpdateStep::RunLive);
}

#[test]
fn a_version_conflict_stops_the_client() {
    let mut base = CoreBase::new("g".to_string(), config(Some("1")));
    assert_eq!(base.update(frame(true, true, 0), "2"), UpdateStep::Idle);
    assert!(base.has_error());
    assert_eq!(base.update(frame(true, true, 0), "1"), UpdateStep::Idle);
    assert!(matches!(base.take_error(), Some(CoreError::VersionConflict { .. })));
}

#[test]
fn an_error_is_final() {
    let mut base = base();
    assert_eq!(base.update(frame(true, true, 0), "1"), UpdateStep::RunLive);
    base.finish_update(Err(CoreError::MissingDlc(MissingDlc::Both)));
    for i in 0..5 {
        assert_eq!(base.update(frame(true, true, i * SECOND), "1"), UpdateStep::Idle);
    }
    assert!(matches!(base.take_error(), Some(CoreError::MissingDlc(MissingDlc::Both))));
    assert_eq!(base.update(frame(true, true, 9 * SECOND), "1"), UpdateStep::Idle);
}

#[test]
fn messages_still_arrive_after_an_error() {
    let mut base = base();
    base.finish_update(Err(CoreError::Failed("boom".to_string())));
    let mut next = frame(true, true, 0);
    next.events = vec![Event::Print(Print::message("still here".to_string()))];
    assert_eq!(base.update(next, "1"), UpdateStep::Idle);
    assert_eq!(logs(&base), vec!["still here"]);
}

#[test]
fn seed_conflicts_are_explained() {
    let error = CoreError::RoomSeedConflict {
        game: GameType::DarkSoulsIII,
        room: "r".to_string(),
        config: "c".to_string(),
    };
    assert_eq!(
        error.message(),
        "You've connected to a different Archipelago multiworld than the one that \
         DS3Randomizer.exe used!\n\nConnected room seed: r\nDS3Randomizer.exe seed: c"
    );
    let error = CoreError::SaveSeedConflict { room: "r".to_string(), save: "s".to_string() };
    assert_eq!(
        error.message(),
        "You've connected to a different Archipelago multiworld than the one that you used before \
         with this save!\n\nConnected room seed: r\nSave file seed: s"
    );
    let error = CoreError::RandomizerSeedConflict {
        game: GameType::Sekiro,
        config: "c".to_string(),
        save: "s".to_string(),
    };
    assert_eq!(
        error.message(),
        "Your most recent SekiroRandomizer.exe invocation connected to a different Archipealgo \
         multiworld than the one that you used before with this save!\n\n\
         SekiroRandomizer.exe seed: c\nSave file seed: s"
    );
}

#[test]
fn missing_content_is_named() {
    for (missing, name) in [
        (MissingDlc::AshesOfAriandel, "the Ashes of Ariandel DLC"),
        (MissingDlc::RingedCity, "the Ringed City DLC"),
        (MissingDlc::Both, "both DLCs"),
    ] {
        assert_eq!(
            CoreError::MissingDlc(missing).message(),
            format!("DLC is enabled for this seed but your game is missing {name}.")
        );
    }
}
