//! The part of the client that is the same for every game: the connection's
//! events, the log, and the decision of when to act on the game at all.

use vstd::prelude::*;
use vstd::string::*;

use crate::clock::{elapsed, spec_elapsed, WallTime};
use crate::config::{text_view, Config, ConfigView};
use crate::error::{error_view, CoreError, CoreErrorView};
use crate::log_buffer::{
    push_all, texts_view, LineView, LogBuffer, LogSource, LogView, LOG_BUFFER_LIMIT,
};
use crate::print::{Print, PrintView, RichText, RichTextView, TextColor};
use crate::text::same_text;

pub mod behavior;

verus! {

/// The grace period between the game finishing a load and the client
/// beginning to take actions in it, in nanoseconds.
pub const GRACE_PERIOD: u64 = 10_000_000_000;

/// How far a connection to the server has come.
#[derive(Clone, Copy, Debug, PartialEq, Eq, Structural)]
pub enum ConnectionStateType {
    Connecting,
    Connected,
    Disconnected,
}

/// The kinds of connection failure that are told apart.
#[derive(Clone, Copy, Debug, PartialEq, Eq, Structural)]
pub enum FaultKind {
    /// The other side refused the network connection.
    ConnectionRefused,
    /// The network connection timed out.
    TimedOut,
    /// Anything else.
    Other,
}

/// Why a connection ended.
#[derive(Debug)]
pub struct ConnectionFault {
    pub kind: FaultKind,
    pub text: String,
}

/// Something that the server connection reported.
#[derive(Debug)]
pub enum Event {
    /// The connection was established.
    Connected,
    /// The connection met an error; a fatal one has closed it.
    Error { fatal: bool, text: String },
    /// A message for the player.
    Print(Print),
    /// Another player died, at the given time.
    DeathLink { source: String, time: WallTime },
    /// Anything else.
    Other,
}

/// The mathematical form of [Event].
pub enum EventView {
    Connected,
    Error { fatal: bool, text: Seq<char> },
    Print(PrintView),
    DeathLink { source: Seq<char>, time: WallTime },
    Other,
}

impl View for Event {
    type V = EventView;

    open spec fn view(&self) -> EventView {
        match self {
            Event::Connected => EventView::Connected,
            Event::Error { fatal, text } => EventView::Error { fatal: *fatal, text: text@ },
            Event::Print(print) => EventView::Print(print@),
            Event::DeathLink { source, time } => EventView::DeathLink {
                source: source@,
                time: *time,
            },
            Event::Other => EventView::Other,
        }
    }
}

/// A list of events in its mathematical form.
pub open spec fn events_view(events: Seq<Event>) -> Seq<EventView> {
    Seq::new(events.len(), |i: int| events[i]@)
}

/// Whether an event waits until the player is in the game.
pub open spec fn is_deferred(event: EventView) -> bool {
    event is DeathLink || event is Other
}

/// Whether an event says that the connection has been closed.
pub open spec fn is_fatal(event: EventView) -> bool {
    event matches EventView::Error { fatal, .. } && fatal
}

/// The state that a connection is taken to be in after `events`: connected as
/// soon as an event says so.
pub open spec fn state_after(
    events: Seq<EventView>,
    state: ConnectionStateType,
) -> ConnectionStateType {
    if exists|i: int| 0 <= i < events.len() && #[trigger] events[i] is Connected {
        ConnectionStateType::Connected
    } else {
        state
    }
}

/// The message that tells the player why the connection ended.
pub open spec fn fault_print(
    kind: FaultKind,
    text: Seq<char>,
    state: ConnectionStateType,
) -> PrintView {
    if kind is ConnectionRefused || kind is TimedOut {
        PrintView::of_parts(
            seq![
                RichTextView::Color { text: "Connection refused. "@, color: TextColor::Red },
                RichTextView::Text(
                    "Make sure the server session is running and the URL is up-to-date."@,
                ),
            ],
        )
    } else if state is Connected {
        PrintView::of_parts(
            seq![
                RichTextView::Color { text: "Connection failed: "@, color: TextColor::Red },
                RichTextView::Text(text),
            ],
        )
    } else {
        PrintView::of_parts(
            seq![
                RichTextView::Color { text: "Disconnected: "@, color: TextColor::Red },
                RichTextView::Text(text),
            ],
        )
    }
}

/// A message of this client's own.
pub open spec fn own_line(print: PrintView) -> LineView {
    LineView { source: LogSource::Client, print }
}

/// The messages that one event adds to the log.
pub open spec fn event_lines(
    event: EventView,
    state: ConnectionStateType,
    kind: FaultKind,
    fault: Seq<char>,
) -> Seq<LineView> {
    match event {
        EventView::Error { fatal, text } => if fatal {
            seq![own_line(fault_print(kind, fault, state))]
        } else {
            seq![own_line(PrintView::of_text(text))]
        },
        EventView::Print(print) => seq![LineView { source: LogSource::Server, print }],
        _ => Seq::empty(),
    }
}

/// The messages that a list of events adds to the log, given the state the
/// connection was in before them.
pub open spec fn lines_of(
    events: Seq<EventView>,
    state: ConnectionStateType,
    kind: FaultKind,
    fault: Seq<char>,
) -> Seq<LineView>
    decreases events.len(),
{
    if events.len() == 0 {
        Seq::empty()
    } else {
        let before = events.drop_last();
        lines_of(before, state, kind, fault) + event_lines(
            events.last(),
            state_after(before, state),
            kind,
            fault,
        )
    }
}

/// Whether any of `events` closed the connection.
pub open spec fn any_fatal(events: Seq<EventView>) -> bool {
    exists|i: int| 0 <= i < events.len() && is_fatal(#[trigger] events[i])
}

/// What a client asks of the server when it connects.
#[derive(Debug)]
pub struct ConnectionRequest {
    /// The address of the room.
    pub url: String,
    /// The name of the game being played.
    pub game: String,
    /// The name of the player's slot.
    pub slot: String,
    /// The room's password, if it has one.
    pub password: Option<String>,
    /// The features that this client takes part in.
    pub tags: Vec<String>,
    /// Whether to receive items that are found in the player's own world.
    pub own_world: bool,
    /// Whether to receive the items that the player starts with.
    pub starting_inventory: bool,
}

impl ConnectionRequest {
    /// Whether this asks the room that `config` names for a connection of the
    /// kind that this client makes: it takes part in death links, and receives
    /// its starting inventory and other worlds' items but not its own.
    pub open spec fn matches(self, game: Seq<char>, config: ConfigView) -> bool {
        &&& self.url@ == config.url
        &&& self.game@ == game
        &&& self.slot@ == config.slot
        &&& text_view(self.password) == config.password
        &&& self.tags@.len() == 1
        &&& self.tags@[0]@ == "DeathLink"@
        &&& !self.own_world
        &&& self.starting_inventory
    }
}

/// What the client sees of its surroundings in one frame.
#[derive(Debug)]
pub struct Frame {
    /// The state of the connection before it was polled.
    pub state: ConnectionStateType,
    /// What polling the connection reported.
    pub events: Vec<Event>,
    /// Why the connection ended, if it has.
    pub fault: ConnectionFault,
    /// Whether the connection is open after it was polled.
    pub connected: bool,
    /// Whether the game is showing its main menu.
    pub is_main_menu: bool,
    /// The current time of the monotonic clock.
    pub now: u64,
}

/// What to do for the rest of a frame.
#[derive(Clone, Copy, Debug, PartialEq, Eq, Structural)]
pub enum UpdateStep {
    /// Leave the game alone.
    Idle,
    /// Run the game's own logic, and report how it went.
    RunLive,
}

/// The part of the client that every game shares.
#[derive(Debug)]
pub struct CoreBase {
    game: String,
    config: Config,
    log_buffer: LogBuffer,
    event_buffer: Vec<Event>,
    load_time: Option<u64>,
    error: Option<CoreError>,
}

/// The mathematical form of [CoreBase].
pub struct CoreBaseView {
    /// The name of the game that's being played.
    pub game: Seq<char>,
    /// The configuration of the current connection.
    pub config: ConfigView,
    /// The messages displayed in the overlay, and what is yet to be written of
    /// them.
    pub logs: LogView,
    /// The events that wait until the player has loaded a save.
    pub events: Seq<EventView>,
    /// The time at which the game was first seen loaded, if it is.
    pub load_time: Option<u64>,
    /// The fatal error that the client has met, if any.
    pub error: Option<CoreErrorView>,
}

impl View for CoreBase {
    type V = CoreBaseView;

    closed spec fn view(&self) -> CoreBaseView {
        CoreBaseView {
            game: self.game@,
            config: self.config@,
            logs: self.log_buffer@,
            events: events_view(self.event_buffer@),
            load_time: self.load_time,
            error: error_view(self.error),
        }
    }
}

impl CoreBaseView {
    /// The client after logging one message.
    pub open spec fn logged(self, print: PrintView) -> CoreBaseView {
        CoreBaseView { logs: self.logs.pushed(own_line(print)), ..self }
    }

    /// The client after the connection reported `events`, having been in
    /// `state` before.
    pub open spec fn after_events(
        self,
        state: ConnectionStateType,
        events: Seq<EventView>,
        kind: FaultKind,
        fault: Seq<char>,
    ) -> CoreBaseView {
        CoreBaseView {
            logs: push_all(self.logs, lines_of(events, state, kind, fault)),
            events: if any_fatal(events) {
                Seq::empty()
            } else {
                self.events + (if state_after(events, state) is Connected {
                    events.filter(|event: EventView| is_deferred(event))
                } else {
                    Seq::empty()
                })
            },
            ..self
        }
    }
}

impl CoreBaseView {
    /// The error to raise if the configuration was written by a version of the
    /// randomizer other than `version`.
    pub open spec fn version_conflict(self, version: Seq<char>) -> Option<CoreErrorView> {
        match self.config.client_version {
            Some(generated) if generated != version => Some(
                CoreErrorView::VersionConflict { generated, client: version },
            ),
            _ => None,
        }
    }

    /// When the game was first seen loaded, given what this frame shows.
    pub open spec fn load_time_at(self, is_main_menu: bool, now: u64) -> Option<u64> {
        if is_main_menu {
            None
        } else if self.load_time is None {
            Some(now)
        } else {
            self.load_time
        }
    }

    /// Whether the game has been loaded for too short a time to act on it.
    pub open spec fn in_grace_period(self, now: u64) -> bool {
        self.load_time is Some && spec_elapsed(self.load_time->0, now) < GRACE_PERIOD
    }

    /// The client after one frame, before the game's own logic has run, and
    /// whether that logic is to be run.
    pub open spec fn updated(self, frame: Frame, version: Seq<char>) -> (CoreBaseView, UpdateStep) {
        let seen = self.after_events(
            frame.state,
            events_view(frame.events@),
            frame.fault.kind,
            frame.fault.text@,
        );
        if seen.error is Some {
            (seen, UpdateStep::Idle)
        } else if !frame.connected {
            (
                CoreBaseView {
                    load_time: if frame.is_main_menu {
                        None
                    } else {
                        seen.load_time
                    },
                    ..seen
                },
                UpdateStep::Idle,
            )
        } else {
            let timed = CoreBaseView {
                load_time: seen.load_time_at(frame.is_main_menu, frame.now),
                ..seen
            };
            if timed.in_grace_period(frame.now) {
                (timed, UpdateStep::Idle)
            } else if timed.version_conflict(version) is Some {
                (
                    CoreBaseView { error: timed.version_conflict(version), ..timed },
                    UpdateStep::Idle,
                )
            } else {
                (timed, UpdateStep::RunLive)
            }
        }
    }

    /// The client after it told the player that it connects again, which it
    /// does if the connection, in `state`, was closed.
    pub open spec fn announced(self, state: ConnectionStateType) -> CoreBaseView {
        if state is Disconnected {
            self.logged(PrintView::of_text("Reconnecting..."@))
        } else {
            self
        }
    }

    /// The client once its connection is replaced. The events of the old
    /// connection go with it.
    pub open spec fn replaced(self) -> CoreBaseView {
        CoreBaseView { events: Seq::empty(), ..self }
    }

    /// The client after it was asked to connect again, the connection having
    /// been in `state`.
    pub open spec fn reconnecting(self, state: ConnectionStateType) -> CoreBaseView {
        self.announced(state).replaced()
    }

    /// The client after the address of its room was changed, the connection
    /// being in `state`.
    pub open spec fn with_url(self, state: ConnectionStateType, url: Seq<char>) -> CoreBaseView {
        CoreBaseView { config: ConfigView { url, ..self.config }, ..self.announced(state) }
    }

    /// The client once its error was handed out.
    pub open spec fn error_taken(self) -> CoreBaseView {
        CoreBaseView {
            error: if self.error is Some {
                Some(CoreErrorView::Elsewhere)
            } else {
                None
            },
            ..self
        }
    }

    /// The client after the game's own logic ended, with `error` if it failed.
    pub open spec fn finished(self, error: Option<CoreErrorView>) -> CoreBaseView {
        CoreBaseView { error, ..self }
    }
}

proof fn lemma_push_all_one(logs: LogView, added: Seq<LineView>, next: LineView)
    ensures
        push_all(logs, added + seq![next]) == push_all(logs, added).pushed(next),
{
    assert((added + seq![next]).drop_last() =~= added);
    assert((added + seq![next]).last() == next);
}

/// What one more event changes about the summaries of a list of events.
proof fn lemma_one_more_event(
    all: Seq<EventView>,
    i: int,
    state: ConnectionStateType,
    kind: FaultKind,
    fault: Seq<char>,
)
    requires
        0 <= i < all.len(),
    ensures
        state_after(all.take(i + 1), state) == (if all[i] is Connected {
            ConnectionStateType::Connected
        } else {
            state_after(all.take(i), state)
        }),
        any_fatal(all.take(i + 1)) == (any_fatal(all.take(i)) || is_fatal(all[i])),
        lines_of(all.take(i + 1), state, kind, fault) == lines_of(all.take(i), state, kind, fault)
            + event_lines(all[i], state_after(all.take(i), state), kind, fault),
        all.take(i + 1).filter(|event: EventView| is_deferred(event)) == (if is_deferred(all[i]) {
            all.take(i).filter(|event: EventView| is_deferred(event)).push(all[i])
        } else {
            all.take(i).filter(|event: EventView| is_deferred(event))
        }),
{
    reveal(Seq::filter);
    let before = all.take(i);
    let after = all.take(i + 1);
    assert(after.drop_last() =~= before);
    assert(after.last() == all[i]);
    assert(after[i] == all[i]);
    assert(forall|j: int| 0 <= j < i ==> #[trigger] before[j] == after[j]);
}

/// The message that tells the player why the connection ended.
fn fault_message(fault: &ConnectionFault, state: ConnectionStateType) -> (print: Print)
    ensures
        print@ == fault_print(fault.kind, fault.text@, state),
{
    let refused: bool = fault.kind == FaultKind::ConnectionRefused || fault.kind
        == FaultKind::TimedOut;
    let parts: Vec<RichText> = if refused {
        vec![
            RichText::colored("Connection refused. ", TextColor::Red),
            RichText::plain("Make sure the server session is running and the URL is up-to-date."),
        ]
    } else if state == ConnectionStateType::Connected {
        vec![
            RichText::colored("Connection failed: ", TextColor::Red),
            RichText::plain(fault.text.as_str()),
        ]
    } else {
        vec![
            RichText::colored("Disconnected: ", TextColor::Red),
            RichText::plain(fault.text.as_str()),
        ]
    };
    let print: Print = Print::from_parts(parts);
    assert(print@.data =~= fault_print(fault.kind, fault.text@, state).data);
    print
}

impl CoreBase {
    /// The log never outgrows its limit.
    pub closed spec fn wf(self) -> bool {
        self.log_buffer.wf()
    }

    /// A well-formed client's log is within its limit.
    pub proof fn law_log_within_limit(self)
        ensures
            self.wf() == (self@.logs.messages.len() <= LOG_BUFFER_LIMIT),
    {
    }

    /// Creates the shared part of a client for `game`.
    pub fn new(game: String, config: Config) -> (base: CoreBase)
        ensures
            base.wf(),
            base@ == (CoreBaseView {
                game: game@,
                config: config@,
                logs: LogView::empty(),
                events: Seq::empty(),
                load_time: None,
                error: None,
            }),
    {
        let base: CoreBase = CoreBase {
            game,
            config,
            log_buffer: LogBuffer::new(),
            event_buffer: Vec::new(),
            load_time: None,
            error: None,
        };
        assert(base@.events =~= Seq::<EventView>::empty());
        base
    }

    /// Writes a message to the log that is displayed to the player.
    pub fn log(&mut self, print: Print)
        requires
            old(self).wf(),
        ensures
            final(self).wf(),
            final(self)@ == old(self)@.logged(print@),
    {
        self.log_buffer.push(print, LogSource::Client);
    }

    /// Takes the lines that are yet to be written to the internal log.
    pub fn take_unwritten(&mut self) -> (lines: Vec<String>)
        ensures
            texts_view(lines@) == old(self)@.logs.unwritten,
            final(self)@ == (CoreBaseView {
                logs: LogView { unwritten: Seq::empty(), ..old(self)@.logs },
                ..old(self)@
            }),
            final(self).wf() == old(self).wf(),
    {
        self.log_buffer.take_unwritten()
    }

    /// Takes in what the connection reported since the last frame: messages
    /// and errors go to the log at once, and everything else is put aside
    /// until the player is in the game.
    ///
    /// `state` is the state of the connection before it was polled, and
    /// `fault` is why it ended, which matters only if it has.
    pub fn update_always(
        &mut self,
        state: ConnectionStateType,
        events: Vec<Event>,
        fault: &ConnectionFault,
    )
        requires
            old(self).wf(),
        ensures
            final(self).wf(),
            final(self)@ == old(self)@.after_events(
                state,
                events_view(events@),
                fault.kind,
                fault.text@,
            ),
    {
        let ghost all = events_view(events@);
        let ghost deferred = |event: EventView| is_deferred(event);
        let ghost start = self@;
        let mut now: ConnectionStateType = state;
        let mut ended: bool = false;
        let mut rest: Vec<Event> = Vec::new();
        proof {
            assert(all.take(0) =~= Seq::<EventView>::empty());
            reveal(Seq::filter);
            assert(events_view(rest@) =~= Seq::<EventView>::empty());
        }
        for event in it: events
            invariant
                self.wf(),
                all == events_view(it.seq()),
                deferred == (|event: EventView| is_deferred(event)),
                now == state_after(all.take(it.index()), state),
                ended == any_fatal(all.take(it.index())),
                self@.logs == push_all(
                    start.logs,
                    lines_of(all.take(it.index()), state, fault.kind, fault.text@),
                ),
                self@.events == (if ended {
                    Seq::empty()
                } else {
                    start.events
                }),
                events_view(rest@) == all.take(it.index()).filter(deferred),
                self@ == (CoreBaseView { logs: self@.logs, events: self@.events, ..start }),
        {
            let ghost next = event@;
            proof {
                assert(next == all[it.index()]);
                lemma_one_more_event(all, it.index(), state, fault.kind, fault.text@);
                let added = lines_of(all.take(it.index()), state, fault.kind, fault.text@);
                assert(added + Seq::<LineView>::empty() =~= added);
                lemma_push_all_one(
                    start.logs,
                    added,
                    own_line(fault_print(fault.kind, fault.text@, now)),
                );
                if let EventView::Error { text, .. } = next {
                    lemma_push_all_one(start.logs, added, own_line(PrintView::of_text(text)));
                }
                if let EventView::Print(print) = next {
                    lemma_push_all_one(
                        start.logs,
                        added,
                        LineView { source: LogSource::Server, print },
                    );
                }
            }
            match event {
                Event::Connected => {
                    now = ConnectionStateType::Connected;
                },
                Event::Error { fatal, text } => {
                    if fatal {
                        self.log(fault_message(fault, now));
                        self.event_buffer.clear();
                        ended = true;
                        assert(self@.events =~= Seq::<EventView>::empty());
                    } else {
                        self.log(Print::message(text));
                    }
                },
                Event::Print(print) => {
                    self.log_buffer.push(print, LogSource::Server);
                },
                _ => {
                    let ghost kept = rest@;
                    rest.push(event);
                    assert(events_view(rest@) =~= events_view(kept).push(next));
                },
            }
        }
        assert(all.take(all.len() as int) =~= all);
        let ghost waiting = self.event_buffer@;
        if ended {
            assert(self@.events =~= Seq::<EventView>::empty());
        } else if now == ConnectionStateType::Connected {
            let ghost arrived = rest@;
            self.event_buffer.append(&mut rest);
            assert(self@.events =~= events_view(waiting) + events_view(arrived));
        } else {
            assert(events_view(waiting) + Seq::<EventView>::empty() =~= events_view(waiting));
        }
    }

    /// The connection to ask the server for, going by the configuration.
    pub fn new_connection(&self) -> (request: ConnectionRequest)
        ensures
            request.matches(self@.game, self@.config),
    {
        let password: Option<String> = match self.config.password() {
            Some(password) => Some(password.to_owned()),
            None => None,
        };
        ConnectionRequest {
            url: self.config.url().to_owned(),
            game: self.game.clone(),
            slot: self.config.slot().to_owned(),
            password,
            tags: vec!["DeathLink".to_owned()],
            own_world: false,
            starting_inventory: true,
        }
    }

    /// Retries the connection with the same information. The events of the
    /// connection that is replaced are dropped.
    pub fn reconnect(&mut self, state: ConnectionStateType) -> (request: ConnectionRequest)
        requires
            old(self).wf(),
        ensures
            final(self).wf(),
            final(self)@ == old(self)@.reconnecting(state),
            request.matches(old(self)@.game, old(self)@.config),
    {
        if state == ConnectionStateType::Disconnected {
            self.log(Print::message("Reconnecting...".to_owned()));
        }
        self.event_buffer.clear();
        assert(self@.events =~= Seq::<EventView>::empty());
        self.new_connection()
    }

    /// Updates the address of the room. The configuration is then ready to be
    /// saved, and after that the connection to be made anew. The old connection
    /// stays until then.
    pub fn update_url(&mut self, state: ConnectionStateType, url: &str)
        requires
            old(self).wf(),
        ensures
            final(self).wf(),
            final(self)@ == (CoreBaseView {
                config: ConfigView { url: url@, ..old(self)@.config },
                ..old(self)@.announced(state)
            }),
            final(self)@ == old(self)@.with_url(state, url@),
    {
        if state == ConnectionStateType::Disconnected {
            self.log(Print::message("Reconnecting...".to_owned()));
        }
        self.config.set_url(url);
    }

    /// Asks for a connection to the room whose address was just saved. The
    /// events of the connection that is replaced are dropped.
    pub fn url_saved(&mut self) -> (request: ConnectionRequest)
        ensures
            final(self)@ == old(self)@.replaced(),
            final(self).wf() == old(self).wf(),
            request.matches(old(self)@.game, old(self)@.config),
    {
        self.event_buffer.clear();
        assert(self@.events =~= Seq::<EventView>::empty());
        self.new_connection()
    }

    /// If this client has met a fatal error, hands it out. A placeholder stays
    /// behind, so that the client remains stopped.
    pub fn take_error(&mut self) -> (error: Option<CoreError>)
        ensures
            error_view(error) == old(self)@.error,
            final(self)@ == (CoreBaseView {
                error: if old(self)@.error is Some {
                    Some(CoreErrorView::Elsewhere)
                } else {
                    None
                },
                ..old(self)@
            }),
            final(self)@ == old(self)@.error_taken(),
            final(self).wf() == old(self).wf(),
    {
        let error: Option<CoreError> = self.error.take();
        if error.is_some() {
            self.error = Some(CoreError::Elsewhere);
        }
        error
    }

    /// The current user configuration.
    pub fn config(&self) -> (config: &Config)
        ensures
            config@ == self@.config,
    {
        &self.config
    }

    /// The messages that are displayed in the overlay, oldest first.
    pub fn logs(&self) -> (logs: &LogBuffer)
        ensures
            logs@ == self@.logs,
            logs.wf() == self.wf(),
    {
        &self.log_buffer
    }

    /// Whether this client has met a fatal error.
    pub fn has_error(&self) -> (failed: bool)
        ensures
            failed == (self@.error is Some),
    {
        self.error.is_some()
    }

    /// Consumes and returns all the as-yet-unprocessed events.
    pub fn take_events(&mut self) -> (events: Vec<Event>)
        ensures
            events_view(events@) == old(self)@.events,
            final(self)@ == (CoreBaseView { events: Seq::empty(), ..old(self)@ }),
            final(self).wf() == old(self).wf(),
    {
        let mut events: Vec<Event> = Vec::new();
        std::mem::swap(&mut events, &mut self.event_buffer);
        assert(self@.events =~= Seq::<EventView>::empty());
        events
    }

    /// Returns an error if the configuration was written by a version of the
    /// static randomizer other than `version`, which is this client's own.
    pub fn check_version_conflict(&self, version: &str) -> (checked: Result<(), CoreError>)
        ensures
            match checked {
                Ok(()) => self@.version_conflict(version@) is None,
                Err(error) => self@.version_conflict(version@) == Some(error@),
            },
    {
        match self.config.client_version() {
            Some(generated) => {
                if same_text(generated, version) {
                    Ok(())
                } else {
                    Err(
                        CoreError::VersionConflict {
                            generated: generated.to_owned(),
                            client: version.to_owned(),
                        },
                    )
                }
            },
            None => Ok(()),
        }
    }

    /// Runs the logic that every frame begins with, and says whether the
    /// game's own logic is to follow.
    pub fn update(&mut self, frame: Frame, version: &str) -> (step: UpdateStep)
        requires
            old(self).wf(),
        ensures
            final(self).wf(),
            (final(self)@, step) == old(self)@.updated(frame, version@),
    {
        self.update_always(frame.state, frame.events, &frame.fault);
        if self.error.is_some() {
            return UpdateStep::Idle;
        }
        if frame.is_main_menu {
            self.load_time = None;
        }
        if !frame.connected {
            return UpdateStep::Idle;
        }
        if !frame.is_main_menu && self.load_time.is_none() {
            self.load_time = Some(frame.now);
        }
        if let Some(time) = self.load_time {
            if elapsed(time, frame.now) < GRACE_PERIOD {
                return UpdateStep::Idle;
            }
        }
        match self.check_version_conflict(version) {
            Err(error) => {
                self.error = Some(error);
                UpdateStep::Idle
            },
            Ok(()) => UpdateStep::RunLive,
        }
    }

    /// Takes in how the game's own logic went.
    pub fn finish_update(&mut self, outcome: Result<(), CoreError>)
        ensures
            final(self)@ == (CoreBaseView {
                error: match outcome {
                    Ok(()) => None,
                    Err(error) => Some(error@),
                },
                ..old(self)@
            }),
            final(self)@ == old(self)@.finished(
                match outcome {
                    Ok(()) => None,
                    Err(error) => Some(error@),
                },
            ),
            final(self).wf() == old(self).wf(),
    {
        self.error = match outcome {
            Ok(()) => None,
            Err(error) => Some(error),
        };
    }
}

/// Events only wait while the connection is open: if none wait for a
/// connection that is not open, then none wait after a frame that ends with
/// the connection closed.
pub proof fn law_events_wait_only_while_connected(
    base: CoreBaseView,
    state: ConnectionStateType,
    events: Seq<EventView>,
    kind: FaultKind,
    fault: Seq<char>,
)
    requires
        base.events.len() > 0 ==> state is Connected,
    ensures
        any_fatal(events) || !(state_after(events, state) is Connected) ==> base.after_events(
            state,
            events,
            kind,
            fault,
        ).events.len() == 0,
{
}

/// No event outlives its connection: once it is replaced, none wait.
pub proof fn law_replaced_connection_leaves_no_events(
    base: CoreBaseView,
    state: ConnectionStateType,
)
    ensures
        base.reconnecting(state).events.len() == 0,
        base.replaced().events.len() == 0,
{
}

/// The game is only touched over an open connection, by a client that has met
/// no error and whose version is the one that wrote the configuration.
pub proof fn law_live_only_when_healthy(base: CoreBaseView, frame: Frame, version: Seq<char>)
    ensures
        base.updated(frame, version).1 is RunLive ==> {
            &&& frame.connected
            &&& base.error is None
            &&& base.updated(frame, version).0.error is None
            &&& base.config.client_version matches Some(generated) ==> generated == version
        },
{
}

/// What the connection reports is always taken in, whether or not the client is
/// connected or has met a fatal error.
pub proof fn law_reports_are_always_taken_in(base: CoreBaseView, frame: Frame, version: Seq<char>)
    ensures
        ({
            let seen = base.after_events(
                frame.state,
                events_view(frame.events@),
                frame.fault.kind,
                frame.fault.text@,
            );
            &&& base.updated(frame, version).0.logs == seen.logs
            &&& base.updated(frame, version).0.events == seen.events
        }),
{
}

/// Once a client has met a fatal error it never touches the game again, and no
/// frame changes the error.
pub proof fn law_error_is_final(base: CoreBaseView, frame: Frame, version: Seq<char>)
    requires
        base.error is Some,
    ensures
        base.updated(frame, version).1 is Idle,
        base.updated(frame, version).0.error == base.error,
{
}

/// After a load the game is left alone for the whole grace period: the frame
/// that first sees the game loaded does not touch it, every frame keeps the
/// time of that first one, and none touches the game before the period since
/// then is over.
pub proof fn law_grace_period_after_load(base: CoreBaseView, frame: Frame, version: Seq<char>)
    requires
        frame.connected,
        base.error is None,
        !frame.is_main_menu,
    ensures
        base.updated(frame, version).0.load_time == (if base.load_time is None {
            Some(frame.now)
        } else {
            base.load_time
        }),
        base.load_time is None ==> base.updated(frame, version).1 is Idle,
        base.load_time matches Some(loaded) ==> spec_elapsed(loaded, frame.now) < GRACE_PERIOD
            ==> base.updated(frame, version).1 is Idle,
{
}

/// A healthy client remembers no load time while the game is not loaded,
/// whether or not it is connected. While the game is loaded and it is
/// connected, it remembers one.
pub proof fn law_load_time_tracks_game(base: CoreBaseView, frame: Frame, version: Seq<char>)
    requires
        base.error is None,
    ensures
        frame.is_main_menu ==> base.updated(frame, version).0.load_time is None,
        frame.connected && !frame.is_main_menu ==> base.updated(frame, version).0.load_time
            is Some,
{
}

/// Every load has a grace period of its own: after any frame on the main menu,
/// with or without a connection, the first connected frame in the game starts
/// one and does not touch the game.
pub proof fn law_every_load_has_its_grace_period(
    base: CoreBaseView,
    menu: Frame,
    loaded: Frame,
    version: Seq<char>,
)
    requires
        base.updated(menu, version).0.error is None,
        base.error is None,
        menu.is_main_menu,
        loaded.connected,
        !loaded.is_main_menu,
    ensures
        ({
            let before = base.updated(menu, version).0;
            &&& before.updated(loaded, version).0.load_time == Some(loaded.now)
            &&& before.updated(loaded, version).1 is Idle
        }),
{
}

} // verus!
