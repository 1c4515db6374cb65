//! What each operation of the shared part does, in terms of what it is given.

use vstd::prelude::*;

use crate::config::ConfigView;
use crate::core_base::{
    any_fatal, event_lines, fault_print, is_deferred, lines_of, own_line, state_after,
    ConnectionRequest, ConnectionStateType, CoreBaseView, EventView, FaultKind, Frame,
};
use crate::error::CoreErrorView;
use crate::log_buffer::{law_logging_adds_up, push_all, LineView, LogSource};
use crate::print::{
    law_components_show_their_text, law_text_of_parts, PrintKindView, PrintView, RichTextView,
    TextColor,
};

verus! {

/// The game's own logic runs exactly if the client is healthy and connected, the
/// game is at its main menu or was loaded ten seconds ago or more, and the
/// configuration is this version's.
pub proof fn law_when_the_game_is_run(base: CoreBaseView, frame: Frame, version: Seq<char>)
    ensures
        base.updated(frame, version).1 is RunLive <==> {
            &&& base.error is None
            &&& frame.connected
            &&& frame.is_main_menu || (base.load_time is Some && frame.now >= base.load_time->0
                + 10_000_000_000)
            &&& base.config.client_version is None || base.config.client_version == Some(version)
        },
{
}

/// A frame makes an error exactly where the game would have run but for the
/// version, and the error names the two versions.
pub proof fn law_when_a_frame_fails(
    base: CoreBaseView,
    frame: Frame,
    version: Seq<char>,
    generated: Seq<char>,
)
    requires
        base.error is None,
    ensures
        base.updated(frame, version).0.error == Some(
            CoreErrorView::VersionConflict { generated, client: version },
        ) <==> {
            &&& frame.connected
            &&& frame.is_main_menu || (base.load_time is Some && frame.now >= base.load_time->0
                + 10_000_000_000)
            &&& base.config.client_version == Some(generated)
            &&& generated != version
        },
        base.updated(frame, version).0.error is Some ==> (base.updated(frame, version).0.error->0
            is VersionConflict),
{
}

/// A frame leaves the game's name and the configuration alone. The load time
/// changes only on the main menu, or when a connected and healthy client first
/// sees the game loaded.
pub proof fn law_what_a_frame_leaves_alone(base: CoreBaseView, frame: Frame, version: Seq<char>)
    ensures
        base.updated(frame, version).0.game == base.game,
        base.updated(frame, version).0.config == base.config,
        base.error is Some || (!frame.connected && !frame.is_main_menu) || (base.load_time is Some
            && !frame.is_main_menu) ==> base.updated(frame, version).0.load_time == base.load_time,
        base.error is None && frame.is_main_menu ==> base.updated(frame, version).0.load_time
            is None,
        base.error is None && frame.connected && !frame.is_main_menu && base.load_time is None
            ==> base.updated(frame, version).0.load_time == Some(frame.now),
{
}

/// What one event shows the player. Messages of the server and errors are shown
/// as they are, each once. Nothing else is shown.
pub proof fn law_what_an_event_shows(
    event: EventView,
    state: ConnectionStateType,
    kind: FaultKind,
    fault: Seq<char>,
)
    ensures
        event matches EventView::Print(print) ==> lines_of(seq![event], state, kind, fault) == seq![
            LineView { source: LogSource::Server, print },
        ],
        event matches EventView::Error { fatal, text } ==> {
            let lines = lines_of(seq![event], state, kind, fault);
            &&& lines.len() == 1
            &&& lines[0].source == LogSource::Client
            &&& !fatal ==> lines[0].print.text() == text
            &&& fatal ==> lines[0].print == fault_print(kind, fault, state)
        },
        event is Connected || event is DeathLink || event is Other ==> lines_of(
            seq![event],
            state,
            kind,
            fault,
        ).len() == 0,
{
    reveal_with_fuel(lines_of, 2);
    assert(seq![event].drop_last() =~= Seq::<EventView>::empty());
    let shown = event_lines(event, state, kind, fault);
    assert(Seq::<LineView>::empty() + shown =~= shown);
    if let EventView::Error { text, .. } = event {
        law_components_show_their_text(text, TextColor::Red);
    }
}

/// Events are dealt with in order: what the later ones show follows what the
/// earlier ones do, and the state that the earlier ones lead to counts for the
/// later ones.
pub proof fn law_events_in_order(
    a: Seq<EventView>,
    b: Seq<EventView>,
    state: ConnectionStateType,
    kind: FaultKind,
    fault: Seq<char>,
)
    ensures
        lines_of(a + b, state, kind, fault) == lines_of(a, state, kind, fault) + lines_of(
            b,
            state_after(a, state),
            kind,
            fault,
        ),
        state_after(a + b, state) == state_after(b, state_after(a, state)),
        any_fatal(a + b) == (any_fatal(a) || any_fatal(b)),
    decreases b.len(),
{
    let all = a + b;
    assert(forall|i: int| 0 <= i < a.len() ==> #[trigger] all[i] == a[i]);
    assert(forall|i: int| a.len() <= i < all.len() ==> #[trigger] all[i] == b[i - a.len()]);
    assert(forall|i: int| 0 <= i < a.len() ==> #[trigger] a[i] == all[i]);
    assert(forall|i: int| 0 <= i < b.len() ==> #[trigger] b[i] == all[a.len() + i]);
    if b.len() == 0 {
        assert(all =~= a);
        assert(lines_of(a, state, kind, fault) + Seq::<LineView>::empty() =~= lines_of(
            a,
            state,
            kind,
            fault,
        ));
    } else {
        law_events_in_order(a, b.drop_last(), state, kind, fault);
        assert(all.drop_last() =~= a + b.drop_last());
        assert(all.last() == b.last());
        assert(lines_of(all, state, kind, fault) =~= lines_of(a, state, kind, fault) + lines_of(
            b,
            state_after(a, state),
            kind,
            fault,
        ));
    }
}

/// A connection is taken to be open once an event says so, and no other event
/// changes that. Only a fatal error is fatal.
pub proof fn law_what_an_event_says_of_the_connection(
    event: EventView,
    state: ConnectionStateType,
)
    ensures
        event is Connected ==> state_after(seq![event], state) is Connected,
        !(event is Connected) ==> state_after(seq![event], state) == state,
        any_fatal(seq![event]) <==> event is Error && event->fatal,
{
    let one = seq![event];
    assert(one[0] == event);
}

/// Whatever was said before, the player is told which way the connection ended:
/// that it was refused if it was or timed out, and otherwise why, as a failure
/// if the connection was open before and as a disconnection if not.
pub proof fn law_faults_are_explained(kind: FaultKind, text: Seq<char>, state: ConnectionStateType)
    ensures
        ({
            let print = fault_print(kind, text, state);
            let color = TextColor::Red;
            &&& print.kind == PrintKindView::Unknown
            &&& print.data.len() == 2
            &&& print.data[0] is Color && print.data[0]->color == color
            &&& kind is ConnectionRefused || kind is TimedOut ==> print.text()
                == "Connection refused. "@
                + "Make sure the server session is running and the URL is up-to-date."@
            &&& kind is Other && state is Connected ==> print.text() == "Connection failed: "@
                + text
            &&& kind is Other && !(state is Connected) ==> print.text() == "Disconnected: "@ + text
        }),
{
    let data = fault_print(kind, text, state).data;
    let none = Seq::<RichTextView>::empty();
    law_text_of_parts(none, data[0]);
    law_text_of_parts(none.push(data[0]), data[1]);
    assert(none.push(data[0]).push(data[1]) =~= data);
    assert(Seq::<char>::empty() + data[0].text() =~= data[0].text());
}

/// While the connection is open, death links and what else is for the game wait
/// behind what waits already. What was shown does not wait.
pub proof fn law_what_waits(
    base: CoreBaseView,
    event: EventView,
    state: ConnectionStateType,
    kind: FaultKind,
    fault: Seq<char>,
)
    ensures
        (event is DeathLink || event is Other) && state is Connected ==> base.after_events(
            state,
            seq![event],
            kind,
            fault,
        ).events == base.events.push(event),
        event is Connected || event is Print || (event is Error && !event->fatal) || (
        !(event is Error) && !(state is Connected)) ==> base.after_events(
            state,
            seq![event],
            kind,
            fault,
        ).events == base.events,
        event is Error && event->fatal ==> base.after_events(
            state,
            seq![event],
            kind,
            fault,
        ).events.len() == 0,
{
    reveal(Seq::filter);
    let one = seq![event];
    assert(one[0] == event);
    assert(one.drop_last() =~= Seq::<EventView>::empty());
    law_what_an_event_says_of_the_connection(event, state);
    let deferred = |event: EventView| is_deferred(event);
    let kept = one.filter(deferred);
    Seq::<EventView>::empty().lemma_filter_len(deferred);
    assert(one.last() == event);
    assert(Seq::<EventView>::empty().filter(deferred) =~= Seq::<EventView>::empty());
    assert(Seq::<EventView>::empty().push(event) =~= one);
    assert(base.events + Seq::<EventView>::empty() =~= base.events);
    assert(base.events + one =~= base.events.push(event));
    assert(kept == if is_deferred(event) {
        one
    } else {
        Seq::empty()
    });
}

/// While the connection is open and stays so, events may come in one go or in
/// two.
pub proof fn law_events_add_up(
    base: CoreBaseView,
    a: Seq<EventView>,
    b: Seq<EventView>,
    kind: FaultKind,
    fault: Seq<char>,
)
    requires
        !any_fatal(a),
        !any_fatal(b),
    ensures
        base.after_events(ConnectionStateType::Connected, a + b, kind, fault) == base.after_events(
            ConnectionStateType::Connected,
            a,
            kind,
            fault,
        ).after_events(ConnectionStateType::Connected, b, kind, fault),
        base.after_events(ConnectionStateType::Connected, Seq::empty(), kind, fault) == base,
{
    let state = ConnectionStateType::Connected;
    let deferred = |event: EventView| is_deferred(event);
    law_events_in_order(a, b, state, kind, fault);
    law_logging_adds_up(
        base.logs,
        lines_of(a, state, kind, fault),
        lines_of(b, state, kind, fault),
    );
    law_logging_adds_up(base.logs, Seq::empty(), Seq::empty());
    Seq::filter_distributes_over_add(a, b, deferred);
    let once = base.after_events(state, a + b, kind, fault);
    let twice = base.after_events(state, a, kind, fault).after_events(state, b, kind, fault);
    assert(once.events =~= twice.events);
    reveal(Seq::filter);
    assert(base.after_events(state, Seq::empty(), kind, fault).events =~= base.events);
}

/// If an event says that the connection was established, everything that came
/// with it waits, also what came before that event. A connection that stays
/// closed leaves nothing behind but what it shows.
pub proof fn law_what_waits_for_a_connection(
    base: CoreBaseView,
    events: Seq<EventView>,
    state: ConnectionStateType,
    kind: FaultKind,
    fault: Seq<char>,
    i: int,
)
    ensures
        0 <= i < events.len() && events[i] is Connected ==> base.after_events(
            state,
            events,
            kind,
            fault,
        ).events == base.after_events(
            ConnectionStateType::Connected,
            events,
            kind,
            fault,
        ).events,
        !(state is Connected) && !any_fatal(events) && (forall|j: int|
            0 <= j < events.len() ==> !(#[trigger] events[j] is Connected)) ==> base.after_events(
            state,
            events,
            kind,
            fault,
        ).events == base.events,
        any_fatal(events) ==> base.after_events(state, events, kind, fault).events.len() == 0,
{
    assert(base.events + Seq::<EventView>::empty() =~= base.events);
}

/// Taking in events shows what they show on top of the log, and changes nothing
/// else but what waits.
pub proof fn law_events_go_to_the_log(
    base: CoreBaseView,
    events: Seq<EventView>,
    state: ConnectionStateType,
    kind: FaultKind,
    fault: Seq<char>,
)
    ensures
        ({
            let after = base.after_events(state, events, kind, fault);
            &&& after.logs == push_all(base.logs, lines_of(events, state, kind, fault))
            &&& after.game == base.game
            &&& after.config == base.config
            &&& after.load_time == base.load_time
            &&& after.error == base.error
        }),
{
}

/// A message of the client's own goes to the end of the log and is written as
/// such, and nothing else changes.
pub proof fn law_own_messages_go_to_the_log(base: CoreBaseView, print: PrintView)
    ensures
        base.logged(print).logs == base.logs.pushed(
            LineView { source: LogSource::Client, print },
        ),
        base.logged(print).logs.messages.last() == print,
        (CoreBaseView { logs: base.logs, ..base.logged(print) }) == base,
        own_line(print).source == LogSource::Client,
{
}

/// Connecting again is announced exactly if the connection was closed. Whether
/// or not it was, nothing waits any more, and nothing else changes.
pub proof fn law_reconnecting(base: CoreBaseView, state: ConnectionStateType)
    ensures
        ({
            let after = base.reconnecting(state);
            &&& state is Disconnected ==> after.logs.emitted != base.logs.emitted
                && after.logs.messages.last().text() == "Reconnecting..."@
            &&& !(state is Disconnected) ==> after.logs == base.logs
            &&& after.events.len() == 0
            &&& after.game == base.game
            &&& after.config == base.config
            &&& after.load_time == base.load_time
            &&& after.error == base.error
        }),
{
    law_components_show_their_text("Reconnecting..."@, TextColor::Red);
}

/// A new address replaces the old one and nothing else of the configuration, and
/// what waits keeps waiting until the connection is made anew.
pub proof fn law_new_address(base: CoreBaseView, state: ConnectionStateType, url: Seq<char>)
    ensures
        ({
            let after = base.with_url(state, url);
            &&& after.config.url == url
            &&& after.config.slot == base.config.slot
            &&& after.config.seed == base.config.seed
            &&& after.config.client_version == base.config.client_version
            &&& after.config.password == base.config.password
            &&& after.events == base.events
            &&& after.logs == base.reconnecting(state).logs
            &&& after.game == base.game
            &&& after.load_time == base.load_time
            &&& after.error == base.error
        }),
{
}

/// Handing out the error leaves a client that has one still, and one that had
/// none without.
pub proof fn law_handed_out_error(base: CoreBaseView)
    ensures
        base.error_taken().error is Some <==> base.error is Some,
        base.error_taken().error is Some ==> base.error_taken().error->0 is Elsewhere,
        (CoreBaseView { error: base.error, ..base.error_taken() }) == base,
{
}

/// A client is stopped by exactly the error that the game's own logic met, and
/// then runs it no more. One that met none goes on.
pub proof fn law_failure_stops_the_client(
    base: CoreBaseView,
    error: CoreErrorView,
    frame: Frame,
    version: Seq<char>,
)
    ensures
        base.finished(Some(error)).error == Some(error),
        base.finished(Some(error)).updated(frame, version).1 is Idle,
        base.finished(None).error is None,
        (CoreBaseView { error: base.error, ..base.finished(None) }) == base,
        (CoreBaseView { error: base.error, ..base.finished(Some(error)) }) == base,
{
}

/// Any two requests that match a configuration ask for the same, and they ask
/// for what it says: its room, its slot and its password, with death links and
/// the starting inventory, and without the player's own items.
pub proof fn law_requests_ask_for_the_room(
    request: ConnectionRequest,
    game: Seq<char>,
    config: ConfigView,
)
    requires
        request.matches(game, config),
    ensures
        request.url@ == config.url,
        request.slot@ == config.slot,
        request.game@ == game,
        config.password is None <==> request.password is None,
        config.password is Some ==> request.password->0@ == config.password->0,
        request.tags@.len() == 1,
        request.tags@[0]@ == "DeathLink"@,
        !request.own_world,
        request.starting_inventory,
{
}

/// There is a version conflict exactly if the configuration tells a version and
/// it is another one, and the conflict names the two.
pub proof fn law_version_conflict(base: CoreBaseView, version: Seq<char>, generated: Seq<char>)
    ensures
        base.config.client_version is None ==> base.version_conflict(version) is None,
        base.config.client_version == Some(version) ==> base.version_conflict(version) is None,
        base.config.client_version == Some(generated) && generated != version
            ==> base.version_conflict(version) == Some(
            CoreErrorView::VersionConflict { generated, client: version },
        ),
{
}

} // verus!
