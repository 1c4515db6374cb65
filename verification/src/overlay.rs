//! The state of the overlay that is drawn on top of the game, and what is
//! drawn for it.

use vstd::prelude::*;
use vstd::string::*;

use crate::client::{CommandStep, Core, EventRequest};
use crate::clock::{elapsed, spec_elapsed};
use crate::colors::{laid_out, write_message_data, Segment};
use crate::command::{command_of, parse_command, CommandView};
use crate::core_base::{ConnectionStateType, CoreBaseView};
use crate::log_buffer::{
    law_every_message_is_counted, push_all, LineView, LogBuffer, LogView,
};
use crate::print::{Print, PrintKind, PrintKindView, PrintView};
use crate::text::same_text;

verus! {

/// The time between reports of the frame timing data, in nanoseconds.
pub const TIME_PER_FRAME_PRINT: u64 = 10_000_000_000;

/// For how many frames after new logs the log window keeps scrolling down.
pub const SCROLL_FRAMES: u64 = 10;

/// The opacity of the most important messages.
pub const EMPHASIZED: u8 = 0xFF;

/// The opacity of all other messages.
pub const DE_EMPHASIZED: u8 = 0xAA;

/// Whether the overlay is in "compact mode", where the bottommost widgets are
/// not rendered. When the connection is inactive, the buttons to reconnect are
/// always shown.
pub open spec fn compact_mode(state: ConnectionStateType, menu_open: bool) -> bool {
    state != ConnectionStateType::Disconnected && !menu_open
}

/// Returns whether the overlay is currently in "compact mode", where the
/// bottommost widgets are not rendered.
pub fn is_compact_mode(state: ConnectionStateType, menu_open: bool) -> (compact: bool)
    ensures
        compact == compact_mode(state, menu_open),
{
    state != ConnectionStateType::Disconnected && !menu_open
}

/// How the main window gets its size in a frame.
#[derive(Clone, Copy, Debug, PartialEq, Eq, Structural)]
pub enum Resize {
    /// It loses the height of the bottommost widgets.
    Shrink,
    /// It gains the height of the bottommost widgets.
    Grow,
    /// It has the size that the player gave it, or else its initial one.
    Keep,
}

/// When the menu opens or closes, space is added or removed for the
/// bottommost widgets, once the window has been drawn before.
pub open spec fn resize_for(drawn_before: bool, compact: bool, was_compact: bool) -> Resize {
    if drawn_before && compact && !was_compact {
        Resize::Shrink
    } else if drawn_before && !compact && was_compact {
        Resize::Grow
    } else {
        Resize::Keep
    }
}

/// What is at the bottom of the main window.
#[derive(Clone, Copy, Debug, PartialEq, Eq, Structural)]
pub enum BottomWidget {
    Nothing,
    /// The buttons that allow the player to reconnect.
    ConnectionButtons,
    /// The text box for chats, which may be given the keyboard focus.
    SayInput { focus: bool },
}

/// What is at the bottom of the main window.
pub open spec fn bottom_widget(
    state: ConnectionStateType,
    menu_open: bool,
    focus: bool,
) -> BottomWidget {
    if compact_mode(state, menu_open) {
        BottomWidget::Nothing
    } else if state == ConnectionStateType::Disconnected {
        BottomWidget::ConnectionButtons
    } else {
        BottomWidget::SayInput { focus }
    }
}

/// What the connection is called in the title of the main window.
pub open spec fn state_name(state: ConnectionStateType) -> Seq<char> {
    match state {
        ConnectionStateType::Connected => "Connected"@,
        ConnectionStateType::Connecting => "Connecting..."@,
        ConnectionStateType::Disconnected => "Disconnected"@,
    }
}

/// The title of the main window. What follows the three hash signs is not
/// shown, and tells the window apart from others.
pub open spec fn window_title(version: Seq<char>, state: ConnectionStateType) -> Seq<char> {
    "Archipelago Client "@ + version + " ["@ + state_name(state) + "]###ap-client-overlay"@
}

/// What the main window depends on in a frame, besides the overlay's state.
#[derive(Clone, Copy, Debug, PartialEq, Eq, Structural)]
pub struct WindowInput {
    /// Whether the size of the screen is known.
    pub viewport_known: bool,
    /// Whether the player presses escape.
    pub escape_pressed: bool,
    /// Whether the game shows its main menu.
    pub main_menu: bool,
    /// Whether the game shows any menu.
    pub menu_open: bool,
    pub state: ConnectionStateType,
}

/// How the main window is drawn in a frame.
#[derive(Debug)]
pub struct WindowPlan {
    /// Whether to take the focus from the window.
    pub defocus: bool,
    /// The opacity of the background.
    pub opacity_percent: i32,
    /// Whether the background of the log's scrollbar is shown.
    pub scrollbar_shown: bool,
    pub title: String,
    pub compact: bool,
    pub resize: Resize,
    pub bottom: BottomWidget,
}

/// The visual overlay that appears on top of the game.
#[derive(Debug)]
pub struct Overlay {
    popup_url: String,
    say_input: String,
    log_was_scrolled_down: bool,
    logs_emitted: u64,
    frames_since_new_logs: u64,
    unfocused_opacity_percent: i32,
    settings_window_visible: bool,
    was_main_menu: bool,
    was_window_focused: bool,
    was_compact_mode: bool,
    focus_say_input_next_frame: bool,
    drawn_before: bool,
    last_profile_printed: u64,
}

/// The mathematical form of [Overlay].
pub struct OverlayView {
    /// The URL field in the modal connection popup.
    pub popup_url: Seq<char>,
    /// The text the user typed in the say input.
    pub say_input: Seq<char>,
    /// Whether the log was previously scrolled all the way down.
    pub log_was_scrolled_down: bool,
    /// How many messages had ever been logged at the previous frame.
    pub logs_emitted: u64,
    /// The number of frames that have elapsed since new logs were last added.
    pub frames_since_new_logs: u64,
    /// The opacity of the main window while it is not focused.
    pub unfocused_opacity_percent: i32,
    /// Whether the settings window is currently visible.
    pub settings_window_visible: bool,
    /// Whether the game was on the main menu in the previous frame.
    pub was_main_menu: bool,
    /// Whether the overlay window was focused in the previous frame.
    pub was_window_focused: bool,
    /// Whether compact mode was enabled in the previous frame.
    pub was_compact_mode: bool,
    /// Whether to focus the say input on the next frame.
    pub focus_say_input_next_frame: bool,
    /// Whether the main window has been drawn, so that its size is known.
    pub drawn_before: bool,
    /// The time the last profile data was printed.
    pub last_profile_printed: u64,
}

impl View for Overlay {
    type V = OverlayView;

    closed spec fn view(&self) -> OverlayView {
        OverlayView {
            popup_url: self.popup_url@,
            say_input: self.say_input@,
            log_was_scrolled_down: self.log_was_scrolled_down,
            logs_emitted: self.logs_emitted,
            frames_since_new_logs: self.frames_since_new_logs,
            unfocused_opacity_percent: self.unfocused_opacity_percent,
            settings_window_visible: self.settings_window_visible,
            was_main_menu: self.was_main_menu,
            was_window_focused: self.was_window_focused,
            was_compact_mode: self.was_compact_mode,
            focus_say_input_next_frame: self.focus_say_input_next_frame,
            drawn_before: self.drawn_before,
            last_profile_printed: self.last_profile_printed,
        }
    }
}

impl OverlayView {
    /// A new overlay.
    pub open spec fn initial(now: u64) -> OverlayView {
        OverlayView {
            popup_url: Seq::empty(),
            say_input: Seq::empty(),
            log_was_scrolled_down: false,
            logs_emitted: 0,
            frames_since_new_logs: 0,
            unfocused_opacity_percent: 40,
            settings_window_visible: false,
            was_main_menu: false,
            was_window_focused: false,
            was_compact_mode: true,
            focus_say_input_next_frame: false,
            drawn_before: false,
            last_profile_printed: now,
        }
    }

    /// Whether the main window loses the focus: when the player presses
    /// escape, and when they load into the game.
    pub open spec fn defocuses(self, input: WindowInput) -> bool {
        input.escape_pressed || (self.was_main_menu && !input.main_menu)
    }

    /// The opacity of the main window's background.
    pub open spec fn opacity_percent(self) -> i32 {
        if self.was_window_focused {
            100
        } else {
            self.unfocused_opacity_percent
        }
    }

    /// Whether it is time to report the frame timing data.
    pub open spec fn owes_profile(self, now: u64) -> bool {
        spec_elapsed(self.last_profile_printed, now) >= TIME_PER_FRAME_PRINT
    }

    /// The overlay once it was asked at `now` whether to report the frame timing
    /// data, and whether it is to.
    pub open spec fn profiled(self, now: u64) -> (OverlayView, bool) {
        if self.owes_profile(now) {
            (OverlayView { last_profile_printed: now, ..self }, true)
        } else {
            (self, false)
        }
    }

    /// Whether `plan` is how the main window is drawn in a frame.
    pub open spec fn plans(self, input: WindowInput, version: Seq<char>, plan: WindowPlan) -> bool {
        let compact = compact_mode(input.state, input.menu_open);
        &&& plan.defocus == self.defocuses(input)
        &&& plan.opacity_percent == self.opacity_percent()
        &&& plan.scrollbar_shown == self.was_window_focused
        &&& plan.title@ == window_title(version, input.state)
        &&& plan.compact == compact
        &&& plan.resize == resize_for(self.drawn_before, compact, self.was_compact_mode)
        &&& plan.bottom == bottom_widget(
            input.state,
            input.menu_open,
            self.focus_say_input_next_frame,
        )
    }

    /// The overlay once the player has entered a line.
    pub open spec fn submitted(self) -> OverlayView {
        OverlayView { say_input: Seq::empty(), focus_say_input_next_frame: true, ..self }
    }

    /// The overlay once it knows how many messages were ever logged.
    pub open spec fn with_logs(self, count: u64) -> OverlayView {
        if count != self.logs_emitted {
            OverlayView { logs_emitted: count, frames_since_new_logs: 0, ..self }
        } else {
            self
        }
    }

    /// Whether the log is to be scrolled all the way down.
    pub open spec fn scrolls(self) -> bool {
        self.log_was_scrolled_down && self.frames_since_new_logs < SCROLL_FRAMES
    }

    /// The overlay after `frames` frames without new logs.
    pub open spec fn after_frames(self, frames: nat) -> OverlayView {
        OverlayView {
            frames_since_new_logs: (self.frames_since_new_logs + frames) as u64,
            ..self
        }
    }

    /// The overlay once the main window has been drawn, or was `collapsed`.
    pub open spec fn after_window(
        self,
        compact: bool,
        main_menu: bool,
        collapsed: bool,
        focused: bool,
    ) -> OverlayView {
        OverlayView {
            was_main_menu: main_menu,
            was_compact_mode: compact,
            was_window_focused: focused && !collapsed,
            drawn_before: self.drawn_before || !collapsed,
            ..self
        }
    }
}

/// What becomes of a line that the player entered.
#[derive(Clone, Copy, Debug, PartialEq, Eq, Structural)]
pub enum SayStep {
    /// The line is to be sent to the server as it is.
    SendToServer,
    /// The game dealt with it.
    Handled,
    /// One of the game's event flags is to be accessed, and the outcome to be
    /// reported.
    Access(EventRequest),
}

/// What becomes of a line that the game would deal with as `step`, if it is a
/// command.
pub open spec fn say_step(step: Option<CommandStep>) -> SayStep {
    match step {
        Some(CommandStep::Handled) => SayStep::Handled,
        Some(CommandStep::Access(request)) => SayStep::Access(request),
        _ => SayStep::SendToServer,
    }
}

/// How the game deals with a line that the player entered, if it is a command.
pub open spec fn line_step<C: Core>(core: C, message: Seq<char>) -> Option<CommandStep> {
    match command_of(message) {
        Some(command) => Some(core.command_step(command.name, Some(command.arg))),
        None => None,
    }
}

/// Handles a command from the player, falling back to sending it to the
/// server.
pub fn say<C: Core>(message: &str, core: &mut C) -> (step: SayStep)
    requires
        old(core).spec_base().wf(),
    ensures
        final(core).spec_base().wf(),
        step == say_step(line_step(*old(core), message@)),
        command_of(message@) matches Some(command) ==> {
            &&& final(core).spec_base()@ == old(core).command_base(
                command.name,
                Some(command.arg),
            )
            &&& *final(core) == old(core).with_base(final(core).spec_base())
        },
        step is SendToServer ==> *final(core) == *old(core),
{
    match parse_command(message) {
        Some(command) => {
            match core.handle_command(command.name.as_str(), Some(command.arg.as_str())) {
                CommandStep::Unhandled => SayStep::SendToServer,
                CommandStep::Handled => SayStep::Handled,
                CommandStep::Access(request) => SayStep::Access(request),
            }
        },
        None => SayStep::SendToServer,
    }
}

/// The opacity of a message: miscellaneous server prints are de-emphasized,
/// and so is what is about other players' items.
pub open spec fn alpha_of(kind: PrintKindView, slot: Seq<char>) -> u8 {
    match kind {
        PrintKindView::Chat => EMPHASIZED,
        PrintKindView::ServerChat => EMPHASIZED,
        PrintKindView::Tutorial => EMPHASIZED,
        PrintKindView::CommandResult => EMPHASIZED,
        PrintKindView::AdminCommandResult => EMPHASIZED,
        PrintKindView::Unknown => EMPHASIZED,
        PrintKindView::ItemSend { sender, receiver } if slot == sender || slot == receiver
            => EMPHASIZED,
        PrintKindView::ItemCheat { sender, receiver } if slot == sender || slot == receiver
            => EMPHASIZED,
        PrintKindView::Hint { sender, receiver } if slot == sender || slot == receiver
            => EMPHASIZED,
        _ => DE_EMPHASIZED,
    }
}

/// The opacity of a message that is shown to the player of `slot`.
pub fn message_alpha(message: &Print, slot: &str) -> (alpha: u8)
    ensures
        alpha == alpha_of(message@.kind, slot@),
{
    match &message.kind {
        PrintKind::Chat
        | PrintKind::ServerChat
        | PrintKind::Tutorial
        | PrintKind::CommandResult
        | PrintKind::AdminCommandResult
        | PrintKind::Unknown => EMPHASIZED,
        PrintKind::ItemSend { sender, receiver }
        | PrintKind::ItemCheat { sender, receiver }
        | PrintKind::Hint { sender, receiver } => {
            if same_text(slot, receiver.as_str()) || same_text(slot, sender.as_str()) {
                EMPHASIZED
            } else {
                DE_EMPHASIZED
            }
        },
        _ => DE_EMPHASIZED,
    }
}

/// Lays out all the messages of a log for the player of `slot`, oldest first.
pub fn log_lines<'a>(logs: &'a LogBuffer, slot: &str) -> (lines: Vec<Vec<Segment<'a>>>)
    ensures
        lines@.len() == logs@.messages.len(),
        forall|i: int|
            0 <= i < lines@.len() ==> laid_out(
                (#[trigger] lines@[i])@,
                logs@.messages[i].data,
                alpha_of(logs@.messages[i].kind, slot@),
            ),
{
    let mut lines: Vec<Vec<Segment<'a>>> = Vec::new();
    let mut i: usize = 0;
    while i < logs.len()
        invariant
            i <= logs@.messages.len(),
            i == lines@.len(),
            forall|j: int|
                0 <= j < lines@.len() ==> laid_out(
                    (#[trigger] lines@[j])@,
                    logs@.messages[j].data,
                    alpha_of(logs@.messages[j].kind, slot@),
                ),
        decreases logs@.messages.len() - i,
    {
        let message: &'a Print = logs.get(i);
        lines.push(write_message_data(&message.data, message_alpha(message, slot)));
        i = i + 1;
    }
    lines
}

fn main_window_title(version: &str, state: ConnectionStateType) -> (title: String)
    ensures
        title@ == window_title(version@, state),
{
    let name: &str = match state {
        ConnectionStateType::Connected => "Connected",
        ConnectionStateType::Connecting => "Connecting...",
        ConnectionStateType::Disconnected => "Disconnected",
    };
    "Archipelago Client ".to_owned().concat(version).concat(" [").concat(name).concat(
        "]###ap-client-overlay",
    )
}

impl Overlay {
    /// Creates a new instance of the overlay.
    pub fn new(now: u64) -> (overlay: Overlay)
        ensures
            overlay@ == OverlayView::initial(now),
    {
        let overlay: Overlay = Overlay {
            popup_url: String::new(),
            say_input: String::new(),
            log_was_scrolled_down: false,
            logs_emitted: 0,
            frames_since_new_logs: 0,
            unfocused_opacity_percent: 40,
            settings_window_visible: false,
            was_main_menu: false,
            was_window_focused: false,
            was_compact_mode: true,
            focus_say_input_next_frame: false,
            drawn_before: false,
            last_profile_printed: now,
        };
        assert(overlay.popup_url@ =~= Seq::<char>::empty());
        overlay
    }

    /// Counts a frame, before it is rendered.
    pub fn before_render(&mut self)
        requires
            old(self)@.frames_since_new_logs < u64::MAX,
        ensures
            final(self)@ == old(self)@.after_frames(1),
    {
        self.frames_since_new_logs = self.frames_since_new_logs + 1;
    }

    /// The number of frames that have elapsed since new logs were last added.
    pub fn frames_since_new_logs(&self) -> (frames: u64)
        ensures
            frames == self@.frames_since_new_logs,
    {
        self.frames_since_new_logs
    }

    /// Decides how the main window is drawn in this frame. It is not drawn
    /// while the size of the screen is not known.
    pub fn render_main_window(&mut self, input: WindowInput, version: &str) -> (plan: Option<
        WindowPlan,
    >)
        ensures
            plan is Some <==> input.viewport_known,
            plan is None ==> *final(self) == *old(self),
            plan matches Some(plan) ==> {
                let compact = compact_mode(input.state, input.menu_open);
                &&& final(self)@ == (OverlayView {
                    focus_say_input_next_frame: false,
                    ..old(self)@
                })
                &&& plan.defocus == old(self)@.defocuses(input)
                &&& plan.opacity_percent == old(self)@.opacity_percent()
                &&& plan.scrollbar_shown == old(self)@.was_window_focused
                &&& plan.title@ == window_title(version@, input.state)
                &&& plan.compact == compact
                &&& plan.resize == resize_for(
                    old(self)@.drawn_before,
                    compact,
                    old(self)@.was_compact_mode,
                )
                &&& plan.bottom == bottom_widget(
                    input.state,
                    input.menu_open,
                    old(self)@.focus_say_input_next_frame,
                )
            },
            plan matches Some(plan) ==> old(self)@.plans(input, version@, plan),
    {
        if !input.viewport_known {
            return None;
        }
        let compact: bool = is_compact_mode(input.state, input.menu_open);
        let resize: Resize = match (self.drawn_before, compact, self.was_compact_mode) {
            (true, true, false) => Resize::Shrink,
            (true, false, true) => Resize::Grow,
            _ => Resize::Keep,
        };
        let focus: bool = self.focus_say_input_next_frame;
        self.focus_say_input_next_frame = false;
        let bottom: BottomWidget = if compact {
            BottomWidget::Nothing
        } else if input.state == ConnectionStateType::Disconnected {
            BottomWidget::ConnectionButtons
        } else {
            BottomWidget::SayInput { focus }
        };
        Some(
            WindowPlan {
                defocus: input.escape_pressed || (self.was_main_menu && !input.main_menu),
                opacity_percent: if self.was_window_focused {
                    100
                } else {
                    self.unfocused_opacity_percent
                },
                scrollbar_shown: self.was_window_focused,
                title: main_window_title(version, input.state),
                compact,
                resize,
                bottom,
            },
        )
    }

    /// Takes note of how the main window was drawn: whether it was collapsed,
    /// and whether it has the focus.
    pub fn main_window_rendered(
        &mut self,
        compact: bool,
        main_menu: bool,
        collapsed: bool,
        focused: bool,
    )
        ensures
            final(self)@ == old(self)@.after_window(compact, main_menu, collapsed, focused),
    {
        if collapsed {
            self.was_window_focused = false;
        } else {
            self.was_window_focused = focused;
            self.drawn_before = true;
        }
        self.was_main_menu = main_menu;
        self.was_compact_mode = compact;
    }

    /// Takes note of how many messages were ever logged.
    pub fn note_logs(&mut self, count: u64)
        ensures
            final(self)@ == old(self)@.with_logs(count),
    {
        if count != self.logs_emitted {
            self.frames_since_new_logs = 0;
            self.logs_emitted = count;
        }
    }

    /// Whether the log is to be scrolled all the way down.
    pub fn should_scroll(&self) -> (scroll: bool)
        ensures
            scroll == self@.scrolls(),
    {
        self.log_was_scrolled_down && self.frames_since_new_logs < SCROLL_FRAMES
    }

    /// Takes note of whether the log is scrolled all the way down.
    pub fn note_scroll(&mut self, scrolled_down: bool)
        ensures
            final(self)@ == (OverlayView { log_was_scrolled_down: scrolled_down, ..old(self)@ }),
    {
        self.log_was_scrolled_down = scrolled_down;
    }

    /// The URL in the modal connection popup.
    pub fn popup_url(&self) -> (url: &str)
        ensures
            url@ == self@.popup_url,
    {
        self.popup_url.as_str()
    }

    /// Takes over what the player typed into the connection popup.
    pub fn set_popup_url(&mut self, url: String)
        ensures
            final(self)@ == (OverlayView { popup_url: url@, ..old(self)@ }),
    {
        self.popup_url = url;
    }

    /// Whether the connection popup lets the player connect: only to a URL
    /// that is not empty.
    pub fn can_connect(&self) -> (can: bool)
        ensures
            can == (self@.popup_url.len() > 0),
    {
        self.popup_url.as_str().unicode_len() > 0
    }

    /// Puts the URL that is in use into the connection popup, for the player to
    /// change.
    pub fn open_url_popup(&mut self, url: &str)
        ensures
            final(self)@ == (OverlayView { popup_url: url@, ..old(self)@ }),
    {
        self.popup_url = url.to_owned();
    }

    /// Whether the settings window is currently visible.
    pub fn settings_window_visible(&self) -> (visible: bool)
        ensures
            visible == self@.settings_window_visible,
    {
        self.settings_window_visible
    }

    /// Shows or hides the settings window.
    pub fn show_settings_window(&mut self, visible: bool)
        ensures
            final(self)@ == (OverlayView { settings_window_visible: visible, ..old(self)@ }),
    {
        self.settings_window_visible = visible;
    }

    /// The opacity of the main window while it is not focused.
    pub fn unfocused_opacity_percent(&self) -> (percent: i32)
        ensures
            percent == self@.unfocused_opacity_percent,
    {
        self.unfocused_opacity_percent
    }

    /// Changes the opacity of the main window while it is not focused.
    pub fn set_unfocused_opacity_percent(&mut self, percent: i32)
        ensures
            final(self)@ == (OverlayView { unfocused_opacity_percent: percent, ..old(self)@ }),
    {
        self.unfocused_opacity_percent = percent;
    }

    /// What the player has typed so far.
    pub fn say_input(&self) -> (input: &str)
        ensures
            input@ == self@.say_input,
    {
        self.say_input.as_str()
    }

    /// Takes over what the player has typed so far.
    pub fn set_say_input(&mut self, input: String)
        ensures
            final(self)@ == (OverlayView { say_input: input@, ..old(self)@ }),
    {
        self.say_input = input;
    }

    /// Takes the line that the player entered, and says what becomes of it. The
    /// input is left empty, and keeps the focus.
    pub fn submit_say<C: Core>(&mut self, core: &mut C) -> (line: (String, SayStep))
        requires
            old(core).spec_base().wf(),
        ensures
            final(core).spec_base().wf(),
            line.0@ == old(self)@.say_input,
            line.1 == say_step(line_step(*old(core), old(self)@.say_input)),
            command_of(old(self)@.say_input) matches Some(command) ==> {
                &&& final(core).spec_base()@ == old(core).command_base(
                    command.name,
                    Some(command.arg),
                )
                &&& *final(core) == old(core).with_base(final(core).spec_base())
            },
            line.1 is SendToServer ==> *final(core) == *old(core),
            final(self)@ == old(self)@.submitted(),
    {
        let line: String = self.say_input.as_str().to_owned();
        self.say_input = String::new();
        assert(self.say_input@ =~= Seq::<char>::empty());
        let step: SayStep = say(line.as_str(), core);
        self.focus_say_input_next_frame = true;
        (line, step)
    }

    /// Whether it is time to report the frame timing data, which is then
    /// counted as done.
    pub fn profile_due(&mut self, now: u64) -> (due: bool)
        ensures
            due == old(self)@.owes_profile(now),
            final(self)@ == (OverlayView {
                last_profile_printed: if due {
                    now
                } else {
                    old(self)@.last_profile_printed
                },
                ..old(self)@
            }),
            (final(self)@, due) == old(self)@.profiled(now),
    {
        if elapsed(self.last_profile_printed, now) >= TIME_PER_FRAME_PRINT {
            self.last_profile_printed = now;
            true
        } else {
            false
        }
    }
}

/// When the connection is inactive, the buttons to reconnect are always shown.
pub proof fn law_disconnected_shows_buttons(menu_open: bool, focus: bool)
    ensures
        bottom_widget(ConnectionStateType::Disconnected, menu_open, focus)
            is ConnectionButtons,
{
}

/// While the player is connected and plays, with no menu open, nothing is at
/// the bottom of the window.
pub proof fn law_playing_shows_no_widgets(state: ConnectionStateType, focus: bool)
    requires
        state != ConnectionStateType::Disconnected,
    ensures
        bottom_widget(state, false, focus) is Nothing,
        bottom_widget(state, true, focus) is SayInput,
{
}

/// The text box keeps the focus after the player has entered a line, for as
/// long as it is shown.
pub proof fn law_say_input_keeps_focus(overlay: OverlayView, state: ConnectionStateType)
    requires
        state != ConnectionStateType::Disconnected,
    ensures
        bottom_widget(state, true, overlay.submitted().focus_say_input_next_frame) == (
        BottomWidget::SayInput { focus: true }),
{
}

/// Reports of the frame timing data keep their distance.
pub proof fn law_profiles_keep_their_distance(overlay: OverlayView, printed: u64, now: u64)
    requires
        now < printed + TIME_PER_FRAME_PRINT,
    ensures
        !(OverlayView { last_profile_printed: printed, ..overlay }).owes_profile(now),
{
}

/// How many more times the window grew than it shrank over frames in which
/// compact mode was as in `modes`, once it has been drawn.
pub open spec fn net_growth(modes: Seq<bool>) -> int
    decreases modes.len(),
{
    if modes.len() < 2 {
        0
    } else {
        net_growth(modes.drop_last()) + match resize_for(
            true,
            modes[modes.len() - 1],
            modes[modes.len() - 2],
        ) {
            Resize::Grow => 1int,
            Resize::Shrink => -1int,
            Resize::Keep => 0int,
        }
    }
}

/// The window does not creep: however often compact mode comes and goes, the
/// window has its old size whenever it is back in its old mode, and differs by
/// one step otherwise.
pub proof fn law_window_does_not_creep(modes: Seq<bool>)
    requires
        modes.len() > 0,
    ensures
        modes.last() == modes.first() ==> net_growth(modes) == 0,
        modes.last() && !modes.first() ==> net_growth(modes) == -1,
        !modes.last() && modes.first() ==> net_growth(modes) == 1,
    decreases modes.len(),
{
    if modes.len() >= 2 {
        law_window_does_not_creep(modes.drop_last());
    }
}

/// New logs scroll a log that was scrolled down, in the frame in which they
/// come and the nine after it, and no others.
pub proof fn law_new_logs_scroll(overlay: OverlayView, count: u64, frames: nat)
    requires
        count != overlay.logs_emitted,
        frames <= u64::MAX,
    ensures
        overlay.with_logs(count).after_frames(frames).scrolls() <==> (
        overlay.log_was_scrolled_down && frames < SCROLL_FRAMES),
{
}

/// Messages that are logged are noticed by the next frame, however many the log
/// holds already: it then has been no frame since they came.
pub proof fn law_new_logs_are_noticed(overlay: OverlayView, logs: LogView, added: Seq<LineView>)
    requires
        overlay.logs_emitted == logs.emitted,
        0 < added.len() <= u64::MAX,
    ensures
        overlay.with_logs(push_all(logs, added).emitted) == (OverlayView {
            logs_emitted: push_all(logs, added).emitted,
            frames_since_new_logs: 0,
            ..overlay
        }),
{
    law_every_message_is_counted(logs, added);
}

/// A message of the client's own is noticed by the next frame, too.
pub proof fn law_own_message_is_noticed(overlay: OverlayView, base: CoreBaseView, print: PrintView)
    requires
        overlay.logs_emitted == base.logs.emitted,
    ensures
        overlay.with_logs(base.logged(print).logs.emitted).frames_since_new_logs == 0,
{
}

/// A log that the player scrolled up is left alone.
pub proof fn law_scrolled_up_log_stays(overlay: OverlayView, count: u64)
    requires
        !overlay.log_was_scrolled_down,
    ensures
        !overlay.with_logs(count).scrolls(),
{
}

/// Loading into the game takes the focus from the window, and makes it show
/// through from the next frame on.
pub proof fn law_loading_in_defocuses(overlay: OverlayView, input: WindowInput, compact: bool)
    requires
        overlay.was_main_menu,
        !input.main_menu,
    ensures
        overlay.defocuses(input),
        overlay.after_window(compact, false, false, false).opacity_percent()
            == overlay.unfocused_opacity_percent,
        overlay.after_window(compact, false, true, true).opacity_percent()
            == overlay.unfocused_opacity_percent,
{
}

/// A line that is not a command goes to the server, whatever the game.
pub proof fn law_chat_goes_to_server<C: Core>(core: C, message: Seq<char>)
    requires
        command_of(message) is None,
    ensures
        say_step(line_step(core, message)) is SendToServer,
{
}

/// A player's own items are never de-emphasized.
pub proof fn law_own_items_are_emphasized(other: Seq<char>, slot: Seq<char>)
    ensures
        alpha_of(PrintKindView::ItemSend { sender: slot, receiver: other }, slot) == EMPHASIZED,
        alpha_of(PrintKindView::ItemSend { sender: other, receiver: slot }, slot) == EMPHASIZED,
        alpha_of(PrintKindView::ItemCheat { sender: slot, receiver: other }, slot) == EMPHASIZED,
        alpha_of(PrintKindView::ItemCheat { sender: other, receiver: slot }, slot) == EMPHASIZED,
        alpha_of(PrintKindView::Hint { sender: slot, receiver: other }, slot) == EMPHASIZED,
        alpha_of(PrintKindView::Hint { sender: other, receiver: slot }, slot) == EMPHASIZED,
{
}

/// Escape always takes the focus from the window. Otherwise only the frame after
/// the main menu does, and no other input matters.
pub proof fn law_what_takes_the_focus(overlay: OverlayView, a: WindowInput, b: WindowInput)
    ensures
        a.escape_pressed ==> overlay.defocuses(a),
        !a.escape_pressed && a.main_menu ==> !overlay.defocuses(a),
        !a.escape_pressed && !overlay.was_main_menu ==> !overlay.defocuses(a),
        !a.main_menu && overlay.was_main_menu ==> overlay.defocuses(a),
        a.escape_pressed == b.escape_pressed && a.main_menu == b.main_menu ==> overlay.defocuses(a)
            == overlay.defocuses(b),
{
}

/// A window with the focus is opaque. One without it is as the player chose.
pub proof fn law_opacity(overlay: OverlayView)
    ensures
        overlay.was_window_focused ==> overlay.opacity_percent() == 100,
        !overlay.was_window_focused ==> overlay.opacity_percent()
            == overlay.unfocused_opacity_percent,
{
}

/// The title has the version, whatever it is, and then the state of the
/// connection, in a fixed setting.
pub proof fn law_title_tells_version_and_state() -> (setting: (Seq<char>, Seq<char>, Seq<char>))
    ensures
        forall|version: Seq<char>, state: ConnectionStateType| #[trigger]
            window_title(version, state) == setting.0 + version + setting.1 + state_name(state)
                + setting.2,
{
    ("Archipelago Client "@, " ["@, "]###ap-client-overlay"@)
}

/// The window changes its size only if it was drawn and compact mode came or
/// went: it shrinks where it came, and grows where it went.
pub proof fn law_when_the_window_is_resized(drawn_before: bool, compact: bool, was_compact: bool)
    ensures
        !drawn_before || compact == was_compact ==> resize_for(drawn_before, compact, was_compact)
            is Keep,
        drawn_before && compact && !was_compact ==> resize_for(drawn_before, compact, was_compact)
            is Shrink,
        drawn_before && !compact && was_compact ==> resize_for(drawn_before, compact, was_compact)
            is Grow,
        compact_mode(ConnectionStateType::Disconnected, compact) == false,
        compact_mode(ConnectionStateType::Connected, compact) == !compact,
        compact_mode(ConnectionStateType::Connecting, compact) == !compact,
{
}

/// A count that is the same as before changes nothing, and another one is
/// remembered. Nothing else changes but the frames since then.
pub proof fn law_counts_are_remembered(overlay: OverlayView, count: u64)
    ensures
        overlay.with_logs(overlay.logs_emitted) == overlay,
        overlay.with_logs(count).logs_emitted == count,
        (OverlayView {
            logs_emitted: overlay.logs_emitted,
            frames_since_new_logs: overlay.frames_since_new_logs,
            ..overlay.with_logs(count)
        }) == overlay,
{
}

/// A frame counts as one frame.
pub proof fn law_frames_add_up(overlay: OverlayView, a: nat, b: nat)
    requires
        overlay.frames_since_new_logs + a + b <= u64::MAX,
    ensures
        overlay.after_frames(a + b) == overlay.after_frames(a).after_frames(b),
        overlay.after_frames(a).frames_since_new_logs == overlay.frames_since_new_logs + a,
        (OverlayView {
            frames_since_new_logs: overlay.frames_since_new_logs,
            ..overlay.after_frames(a)
        }) == overlay,
{
}

/// Of a window that was drawn, the overlay remembers how. One that was collapsed
/// has no focus, and was not drawn by that.
pub proof fn law_what_is_remembered_of_the_window(
    overlay: OverlayView,
    compact: bool,
    main_menu: bool,
    focused: bool,
)
    ensures
        ({
            let drawn = overlay.after_window(compact, main_menu, false, focused);
            let collapsed = overlay.after_window(compact, main_menu, true, focused);
            &&& drawn.was_window_focused == focused
            &&& !collapsed.was_window_focused
            &&& drawn.drawn_before
            &&& collapsed.drawn_before == overlay.drawn_before
            &&& drawn.was_main_menu == main_menu && collapsed.was_main_menu == main_menu
            &&& drawn.was_compact_mode == compact && collapsed.was_compact_mode == compact
            &&& drawn == (OverlayView {
                was_window_focused: focused,
                drawn_before: true,
                ..collapsed
            })
            &&& overlay == (OverlayView {
                was_window_focused: overlay.was_window_focused,
                was_main_menu: overlay.was_main_menu,
                was_compact_mode: overlay.was_compact_mode,
                ..collapsed
            })
        }),
{
}

/// Entering a line empties the input and changes nothing else but the focus.
pub proof fn law_entering_empties_the_input(overlay: OverlayView)
    ensures
        overlay.submitted().say_input.len() == 0,
        (OverlayView {
            say_input: overlay.say_input,
            focus_say_input_next_frame: overlay.focus_say_input_next_frame,
            ..overlay.submitted()
        }) == overlay,
{
}

/// The frame timing data is reported once it has been ten seconds since the last
/// time.
pub proof fn law_profiles_are_owed(overlay: OverlayView, now: u64)
    ensures
        now >= overlay.last_profile_printed + 10_000_000_000 ==> overlay.owes_profile(now),
        now < overlay.last_profile_printed + 10_000_000_000 ==> !overlay.owes_profile(now),
{
}

/// A command goes to the game with its name and its argument. What the game does
/// not deal with goes to the server, and what it wants accessed is accessed.
pub proof fn law_commands_go_to_the_game<C: Core>(
    core: C,
    message: Seq<char>,
    name: Seq<char>,
    arg: Seq<char>,
    request: EventRequest,
)
    requires
        command_of(message) == Some(CommandView { name, arg }),
    ensures
        ({
            let dealt = core.command_step(name, Some(arg));
            let step = say_step(line_step(core, message));
            &&& dealt is Unhandled ==> step is SendToServer
            &&& dealt is Handled ==> step is Handled
            &&& dealt == CommandStep::Access(request) <==> step == SayStep::Access(request)
        }),
{
}

/// Other players' items are always de-emphasized, and so is what the server says
/// of other players' doings. What is said to the player never is.
pub proof fn law_what_is_emphasized(
    kind: PrintKindView,
    sender: Seq<char>,
    receiver: Seq<char>,
    slot: Seq<char>,
)
    requires
        sender != slot,
        receiver != slot,
    ensures
        alpha_of(PrintKindView::ItemSend { sender, receiver }, slot) == 0xAA,
        alpha_of(PrintKindView::ItemCheat { sender, receiver }, slot) == 0xAA,
        alpha_of(PrintKindView::Hint { sender, receiver }, slot) == 0xAA,
        kind is Join || kind is Part || kind is TagsChanged || kind is Goal || kind is Release
            || kind is Collect || kind is Countdown ==> alpha_of(kind, slot) == 0xAA,
        kind is Chat || kind is ServerChat || kind is Tutorial || kind is CommandResult
            || kind is AdminCommandResult || kind is Unknown ==> alpha_of(kind, slot) == 0xFF,
{
}

/// Once ten seconds have passed, the frame timing data is reported, and the next
/// ten seconds begin. Before that nothing changes.
pub proof fn law_profiles_are_reported(overlay: OverlayView, now: u64)
    ensures
        ({
            let (after, due) = overlay.profiled(now);
            &&& due <==> now >= overlay.last_profile_printed + 10_000_000_000
            &&& due ==> after.last_profile_printed == now
            &&& !due ==> after == overlay
            &&& (OverlayView {
                last_profile_printed: overlay.last_profile_printed,
                ..after
            }) == overlay
        }),
{
}

/// A window with the focus is opaque and shows its scrollbar. It has room for
/// buttons or a text box at its bottom exactly if the connection is closed or a
/// menu is open, and the text box has the focus if it is to keep it.
pub proof fn law_how_the_window_is_drawn(
    overlay: OverlayView,
    input: WindowInput,
    version: Seq<char>,
    plan: WindowPlan,
)
    requires
        overlay.plans(input, version, plan),
    ensures
        overlay.was_window_focused <==> plan.scrollbar_shown,
        overlay.was_window_focused ==> plan.opacity_percent == 100,
        plan.compact <==> plan.bottom is Nothing,
        plan.compact <==> input.state != ConnectionStateType::Disconnected && !input.menu_open,
        plan.bottom is ConnectionButtons <==> input.state == ConnectionStateType::Disconnected,
        plan.bottom is SayInput ==> plan.bottom->focus == overlay.focus_say_input_next_frame,
        input.escape_pressed ==> plan.defocus,
        plan.resize is Shrink ==> plan.compact,
        plan.resize is Grow ==> !plan.compact,
        overlay.drawn_before ==> (plan.resize is Keep <==> plan.compact
            == overlay.was_compact_mode),
        !overlay.drawn_before ==> plan.resize is Keep,
{
}

} // verus!
