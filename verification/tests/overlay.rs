//! The overlay.

use ap_client::client::{Core as SharedCore, EventRequest};
use ap_client::colors::{
    part_color, with_alpha, write_message_data, BLACK, BLUE, CYAN, GREEN, MAGENTA, RED, WHITE,
    YELLOW,
};
use ap_client::config::Config;
use ap_client::core_base::{ConnectionFault, ConnectionStateType, Event, FaultKind};
use ap_client::ds3::Core;
use ap_client::overlay::{
    is_compact_mode, log_lines, message_alpha, say, BottomWidget, Overlay, Resize, SayStep, WindowInput,
    WindowPlan,
};
use ap_client::print::{Print, PrintKind, RichText, TextColor};
use ap_client::sdt;
use imgui::ImColor32;

const SECOND: u64 = 1_000_000_000;

const CONNECTED: ConnectionStateType = ConnectionStateType::Connected;
const CONNECTING: ConnectionStateType = ConnectionStateType::Connecting;
const DISCONNECTED: ConnectionStateType = ConnectionStateType::Disconnected;

fn settings() -> Config {
    Config::new("u".to_string(), "me".to_string(), "s".to_string(), None, None)
}

fn input(state: ConnectionStateType, menu_open: bool) -> WindowInput {
    WindowInput {
        viewport_known: true,
        escape_pressed: false,
        main_menu: false,
        menu_open,
        state,
    }
}

fn plan(overlay: &mut Overlay, input: WindowInput) -> WindowPlan {
    overlay.render_main_window(input, "4.0").unwrap()
}

#[test]
fn nothing_is_drawn_before_the_screen_is_known() {
    let mut overlay = Overlay::new(0);
    let mut unknown = input(CONNECTED, true);
    unknown.viewport_known = false;
    assert!(overlay.render_main_window(unknown, "4.0").is_none());
}

#[test]
fn the_title_tells_the_state() {
    let mut overlay = Overlay::new(0);
    for (state, name) in [
        (CONNECTED, "Connected"),
        (CONNECTING, "Connecting..."),
        (DISCONNECTED, "Disconnected"),
    ] {
        assert_eq!(
            plan(&mut overlay, input(state, false)).title,
            format!("Archipelago Client 4.0 [{name}]###ap-client-overlay")
        );
    }
}

#[test]
fn the_bottom_widget_depends_on_connection_and_menu() {
    let mut overlay = Overlay::new(0);
    for (state, menu, bottom) in [
        (DISCONNECTED, false, BottomWidget::ConnectionButtons),
        (DISCONNECTED, true, BottomWidget::ConnectionButtons),
        (CONNECTED, false, BottomWidget::Nothing),
        (CONNECTED, true, BottomWidget::SayInput { focus: false }),
        (CONNECTING, false, BottomWidget::Nothing),
        (CONNECTING, true, BottomWidget::SayInput { focus: false }),
    ] {
        let plan = plan(&mut overlay, input(state, menu));
        assert_eq!(plan.bottom, bottom);
        assert_eq!(plan.compact, bottom == BottomWidget::Nothing);
        assert_eq!(is_compact_mode(state, menu), plan.compact);
    }
}

#[test]
fn the_window_is_resized_with_the_menu() {
    let mut overlay = Overlay::new(0);
    let mut net = 0;
    let modes = [true, false, false, true, true, false, true, false, false];
    for (i, menu_open) in modes.iter().enumerate() {
        let plan = plan(&mut overlay, input(CONNECTED, *menu_open));
        match plan.resize {
            Resize::Grow => net += 1,
            Resize::Shrink => net -= 1,
            Resize::Keep => {}
        }
        if i == 0 {
            // The size is not known yet.
            assert_eq!(plan.resize, Resize::Keep);
        }
        overlay.main_window_rendered(plan.compact, false, false, true);
        assert_eq!(net, if *menu_open { 0 } else { -1 });
    }
}

#[test]
fn a_collapsed_window_has_no_size() {
    let mut overlay = Overlay::new(0);
    assert_eq!(plan(&mut overlay, input(CONNECTED, false)).resize, Resize::Keep);
    overlay.main_window_rendered(true, false, true, true);
    assert_eq!(plan(&mut overlay, input(CONNECTED, true)).resize, Resize::Keep);
    overlay.main_window_rendered(true, false, false, true);
    assert_eq!(plan(&mut overlay, input(CONNECTED, true)).resize, Resize::Grow);
}

#[test]
fn the_window_is_opaque_while_it_has_the_focus() {
    let mut overlay = Overlay::new(0);
    let first = plan(&mut overlay, input(CONNECTED, false));
    assert_eq!(first.opacity_percent, 40);
    assert!(!first.scrollbar_shown);
    overlay.main_window_rendered(true, false, false, true);
    let focused = plan(&mut overlay, input(CONNECTED, false));
    assert_eq!(focused.opacity_percent, 100);
    assert!(focused.scrollbar_shown);
    overlay.main_window_rendered(true, false, true, true);
    assert_eq!(plan(&mut overlay, input(CONNECTED, false)).opacity_percent, 40);
    overlay.set_unfocused_opacity_percent(75);
    assert_eq!(overlay.unfocused_opacity_percent(), 75);
    assert_eq!(plan(&mut overlay, input(CONNECTED, false)).opacity_percent, 75);
}

#[test]
fn escape_and_loading_take_the_focus() {
    let mut overlay = Overlay::new(0);
    let mut pressed = input(CONNECTED, false);
    assert!(!plan(&mut overlay, pressed).defocus);
    pressed.escape_pressed = true;
    assert!(plan(&mut overlay, pressed).defocus);
    overlay.main_window_rendered(true, true, false, false);
    assert!(plan(&mut overlay, input(CONNECTED, false)).defocus);
    let mut menu = input(CONNECTED, false);
    menu.main_menu = true;
    assert!(!plan(&mut overlay, menu).defocus);
    overlay.main_window_rendered(true, false, false, false);
    assert!(!plan(&mut overlay, input(CONNECTED, false)).defocus);
}

#[test]
fn new_logs_scroll_for_ten_frames() {
    let mut overlay = Overlay::new(0);
    overlay.note_logs(5);
    assert!(!overlay.should_scroll());
    overlay.note_scroll(true);
    overlay.note_logs(6);
    for _ in 0..10 {
        assert!(overlay.should_scroll());
        overlay.before_render();
        overlay.note_logs(6);
    }
    assert_eq!(overlay.frames_since_new_logs(), 10);
    assert!(!overlay.should_scroll());
    overlay.note_logs(7);
    assert!(overlay.should_scroll());
    overlay.note_scroll(false);
    assert!(!overlay.should_scroll());
}

#[test]
fn new_logs_are_noticed_in_a_full_log() {
    let mut overlay = Overlay::new(0);
    let mut core = Core::new(settings(), 0, false);
    for _ in 0..250 {
        overlay.before_render();
        core.log(Print::message("x".to_string()));
        overlay.note_logs(core.base().logs().emitted());
        assert_eq!(overlay.frames_since_new_logs(), 0);
    }
    assert_eq!(core.base().logs().len(), 200);
    overlay.before_render();
    overlay.note_logs(core.base().logs().emitted());
    assert_eq!(overlay.frames_since_new_logs(), 1);
}

#[test]
fn the_whole_log_is_laid_out_oldest_first() {
    let mut core = Core::new(settings(), 0, false);
    for i in 0..201 {
        core.log(Print::message(i.to_string()));
    }
    let join = Print {
        kind: PrintKind::Join,
        data: vec![RichText::Player("you".to_string()), RichText::plain(" joined")],
    };
    let fault = ConnectionFault { kind: FaultKind::Other, text: String::new() };
    core.base_mut().update_always(CONNECTED, vec![Event::Print(join)], &fault);
    let lines = log_lines(core.base().logs(), "me");
    assert_eq!(lines.len(), 200);
    for (i, line) in lines.iter().take(199).enumerate() {
        assert_eq!(line.len(), 1);
        assert_eq!(line[0].text, (i + 2).to_string());
        assert_eq!(line[0].color, 0xFFFF_FFFF);
    }
    let last: Vec<_> = lines[199].iter().map(|s| (s.text, s.color, s.same_line)).collect();
    assert_eq!(last, vec![("you", 0xAAD4_A982, false), (" joined", 0xAAFF_FFFF, true)]);
}

#[test]
fn the_url_popup_starts_with_the_url_in_use() {
    let mut overlay = Overlay::new(0);
    assert_eq!(overlay.popup_url(), "");
    assert!(!overlay.can_connect());
    overlay.open_url_popup("archipelago.gg:1");
    assert_eq!(overlay.popup_url(), "archipelago.gg:1");
    assert!(overlay.can_connect());
    overlay.set_popup_url(String::new());
    assert!(!overlay.can_connect());
}

#[test]
fn settings_open_and_close() {
    let mut overlay = Overlay::new(0);
    assert!(!overlay.settings_window_visible());
    overlay.show_settings_window(true);
    assert!(overlay.settings_window_visible());
    overlay.show_settings_window(false);
    assert!(!overlay.settings_window_visible());
}

#[test]
fn chat_goes_to_the_server_and_commands_to_the_game() {
    let mut core = Core::new(settings(), 0, false);
    assert_eq!(say("hello", &mut core), SayStep::SendToServer);
    assert_eq!(say("!hint Ember", &mut core), SayStep::SendToServer);
    assert_eq!(say("!setevent 1 true", &mut core), SayStep::SendToServer);
    assert_eq!(
        say("  !getevent   12 ", &mut core),
        SayStep::Access(EventRequest::Read { flag: 12 })
    );
    assert_eq!(core.base().logs().len(), 0);
    assert_eq!(say("!getevent", &mut core), SayStep::Handled);
    assert_eq!(core.base().logs().len(), 1);
    let mut other = sdt::Core::new(settings(), 0);
    assert_eq!(say("!getevent 12", &mut other), SayStep::SendToServer);
}

#[test]
fn a_submitted_line_leaves_the_input_empty_and_focused() {
    let mut overlay = Overlay::new(0);
    let mut core = Core::new(settings(), 0, false);
    overlay.set_say_input(" hi there ".to_string());
    assert_eq!(overlay.say_input(), " hi there ");
    let (line, step) = overlay.submit_say(&mut core);
    assert_eq!(line, " hi there ");
    assert_eq!(step, SayStep::SendToServer);
    assert_eq!(overlay.say_input(), "");
    let next = plan(&mut overlay, input(CONNECTED, true));
    assert_eq!(next.bottom, BottomWidget::SayInput { focus: true });
    let after = plan(&mut overlay, input(CONNECTED, true));
    assert_eq!(after.bottom, BottomWidget::SayInput { focus: false });
}

#[test]
fn profiles_are_due_every_ten_seconds() {
    let mut overlay = Overlay::new(5 * SECOND);
    assert!(!overlay.profile_due(15 * SECOND - 1));
    assert!(overlay.profile_due(15 * SECOND));
    assert!(!overlay.profile_due(25 * SECOND - 1));
    assert!(overlay.profile_due(26 * SECOND));
    assert!(!overlay.profile_due(35 * SECOND));
}

#[test]
fn miscellaneous_messages_are_de_emphasized() {
    let alpha = |kind: PrintKind| message_alpha(&Print { kind, data: vec![] }, "me");
    for kind in [
        PrintKind::Chat,
        PrintKind::ServerChat,
        PrintKind::Tutorial,
        PrintKind::CommandResult,
        PrintKind::AdminCommandResult,
        PrintKind::Unknown,
    ] {
        assert_eq!(alpha(kind), 0xFF);
    }
    for kind in [
        PrintKind::Join,
        PrintKind::Part,
        PrintKind::TagsChanged,
        PrintKind::Goal,
        PrintKind::Release,
        PrintKind::Collect,
        PrintKind::Countdown,
    ] {
        assert_eq!(alpha(kind), 0xAA);
    }
    for (sender, receiver, expected) in
        [("me", "you", 0xFF), ("you", "me", 0xFF), ("you", "her", 0xAA), ("Me", "ME", 0xAA)]
    {
        let names = || (sender.to_string(), receiver.to_string());
        let (sender, receiver) = names();
        assert_eq!(alpha(PrintKind::ItemSend { sender, receiver }), expected);
        let (sender, receiver) = names();
        assert_eq!(alpha(PrintKind::ItemCheat { sender, receiver }), expected);
        let (sender, receiver) = names();
        assert_eq!(alpha(PrintKind::Hint { sender, receiver }), expected);
    }
}

#[test]
fn colors_are_packed_as_imgui_packs_them() {
    for (color, r, g, b) in [
        (GREEN, 0x8A, 0xE2, 0x43),
        (RED, 0xFF, 0x44, 0x44),
        (WHITE, 0xFF, 0xFF, 0xFF),
        (BLACK, 0x9C, 0x9C, 0x9C),
        (YELLOW, 0xFC, 0xE9, 0x4F),
        (BLUE, 0x82, 0xA9, 0xD4),
        (MAGENTA, 0xBF, 0x9B, 0xBC),
        (CYAN, 0x34, 0xE2, 0xE2),
    ] {
        assert_eq!(color, ImColor32::from_rgb(r, g, b).to_bits());
        assert_eq!(with_alpha(color, 0xAA), ImColor32::from_rgba(r, g, b, 0xAA).to_bits());
        assert_eq!(with_alpha(color, 0xFF), color);
    }
    assert_eq!(with_alpha(0x0012_3456, 0), 0x0012_3456);
    assert_eq!(with_alpha(0xFFFF_FFFF, 0x01), 0x01FF_FFFF);
}

#[test]
fn parts_are_colored_by_what_they_are() {
    let name = || "n".to_string();
    assert_eq!(part_color(&RichText::Player(name())), BLUE);
    assert_eq!(part_color(&RichText::PlayerName(name())), BLUE);
    assert_eq!(part_color(&RichText::Item(name())), MAGENTA);
    assert_eq!(part_color(&RichText::Location(name())), CYAN);
    assert_eq!(part_color(&RichText::EntranceName(name())), CYAN);
    assert_eq!(part_color(&RichText::Text(name())), WHITE);
    for (color, bits) in [
        (TextColor::Blue, BLUE),
        (TextColor::Magenta, MAGENTA),
        (TextColor::Cyan, CYAN),
        (TextColor::Black, BLACK),
        (TextColor::Red, RED),
        (TextColor::Green, GREEN),
        (TextColor::Yellow, YELLOW),
        (TextColor::White, WHITE),
        (TextColor::Bold, WHITE),
        (TextColor::Underline, WHITE),
        (TextColor::RedBg, WHITE),
    ] {
        assert_eq!(part_color(&RichText::Color { text: name(), color }), bits);
    }
}

#[test]
fn a_message_is_laid_out_in_one_line() {
    let parts = vec![
        RichText::Player("Ashen One".to_string()),
        RichText::plain(" found "),
        RichText::Item("Ember".to_string()),
    ];
    let segments = write_message_data(&parts, 0xAA);
    let drawn: Vec<_> = segments.iter().map(|s| (s.text, s.color, s.same_line)).collect();
    assert_eq!(
        drawn,
        vec![
            ("Ashen One", 0xAAD4_A982, false),
            (" found ", 0xAAFF_FFFF, true),
            ("Ember", 0xAABC_9BBF, true),
        ]
    );
    assert!(write_message_data(&vec![], 0xFF).is_empty());
}
