//! The log of messages: what is shown in the overlay, and what is yet to be
//! written to the internal log.

use std::collections::VecDeque;

use vstd::prelude::*;
use vstd::string::*;

use crate::print::{Print, PrintView};

verus! {

/// The maximum number of log messages to store. The overlay lays out every one
/// of them each frame, so a longer log would slow the game down.
pub const LOG_BUFFER_LIMIT: usize = 200;

/// The last `limit` elements of `s`, or all of them if there are fewer.
pub open spec fn keep_last<A>(s: Seq<A>, limit: nat) -> Seq<A> {
    if s.len() <= limit {
        s
    } else {
        s.skip(s.len() - limit)
    }
}

/// Where a message comes from.
#[derive(Clone, Copy, Debug, PartialEq, Eq, Structural)]
pub enum LogSource {
    /// This client itself.
    Client,
    /// The server.
    Server,
}

/// A message that is logged, and where it comes from.
pub struct LineView {
    pub source: LogSource,
    pub print: PrintView,
}

impl LineView {
    /// How the message is written to the internal log.
    pub open spec fn written(self) -> Seq<char> {
        (match self.source {
            LogSource::Client => "[APC] "@,
            LogSource::Server => "[APS] "@,
        }) + self.print.text()
    }
}

/// The count that follows `count`. It starts over at zero when there is no
/// greater one.
pub open spec fn next_count(count: u64) -> u64 {
    if count < u64::MAX {
        (count + 1) as u64
    } else {
        0
    }
}

/// The messages most recently logged, and what is yet to be written of them.
#[derive(Debug)]
pub struct LogBuffer {
    entries: VecDeque<Print>,
    emitted: u64,
    unwritten: Vec<String>,
}

/// The mathematical form of [LogBuffer].
pub struct LogView {
    /// The messages most recently logged, oldest first.
    pub messages: Seq<PrintView>,
    /// How many messages were ever logged.
    pub emitted: u64,
    /// The lines that are yet to be written to the internal log.
    pub unwritten: Seq<Seq<char>>,
}

/// A list of texts in its mathematical form.
pub open spec fn texts_view(texts: Seq<String>) -> Seq<Seq<char>> {
    Seq::new(texts.len(), |i: int| texts[i]@)
}

impl View for LogBuffer {
    type V = LogView;

    closed spec fn view(&self) -> LogView {
        LogView {
            messages: Seq::new(self.entries@.len(), |i: int| self.entries@[i]@),
            emitted: self.emitted,
            unwritten: texts_view(self.unwritten@),
        }
    }
}

impl LogView {
    /// A log with no messages in it.
    pub open spec fn empty() -> LogView {
        LogView { messages: Seq::empty(), emitted: 0, unwritten: Seq::empty() }
    }

    /// The log with one more message.
    pub open spec fn pushed(self, line: LineView) -> LogView {
        LogView {
            messages: keep_last(self.messages.push(line.print), LOG_BUFFER_LIMIT as nat),
            emitted: next_count(self.emitted),
            unwritten: self.unwritten.push(line.written()),
        }
    }
}

impl LogBuffer {
    /// The log never outgrows its limit.
    pub open spec fn wf(self) -> bool {
        self@.messages.len() <= LOG_BUFFER_LIMIT
    }

    /// A log with no messages in it.
    pub fn new() -> (buffer: LogBuffer)
        ensures
            buffer.wf(),
            buffer@ == LogView::empty(),
    {
        let buffer: LogBuffer = LogBuffer {
            entries: VecDeque::new(),
            emitted: 0,
            unwritten: Vec::new(),
        };
        assert(buffer@.messages =~= Seq::<PrintView>::empty());
        assert(buffer@.unwritten =~= Seq::<Seq<char>>::empty());
        buffer
    }

    /// Adds a message, dropping the oldest one if the log is full.
    pub fn push(&mut self, print: Print, source: LogSource)
        requires
            old(self).wf(),
        ensures
            final(self).wf(),
            final(self)@ == old(self)@.pushed(LineView { source, print: print@ }),
    {
        let prefix: &str = match source {
            LogSource::Client => "[APC] ",
            LogSource::Server => "[APS] ",
        };
        let line: String = prefix.to_owned().concat(print.text().as_str());
        self.unwritten.push(line);
        if self.entries.len() >= LOG_BUFFER_LIMIT {
            self.entries.pop_front();
        }
        self.entries.push_back(print);
        self.emitted = if self.emitted < u64::MAX {
            self.emitted + 1
        } else {
            0
        };
        proof {
            let pushed = old(self)@.pushed(LineView { source, print: print@ });
            assert(self@.messages =~= pushed.messages);
            assert(self@.unwritten =~= pushed.unwritten);
        }
    }

    /// The number of messages in the log.
    pub fn len(&self) -> (len: usize)
        ensures
            len == self@.messages.len(),
    {
        self.entries.len()
    }

    /// The message at `index`, counting from the oldest.
    pub fn get(&self, index: usize) -> (print: &Print)
        requires
            index < self@.messages.len(),
        ensures
            print@ == self@.messages[index as int],
    {
        &self.entries[index]
    }

    /// How many messages were ever logged.
    pub fn emitted(&self) -> (emitted: u64)
        ensures
            emitted == self@.emitted,
    {
        self.emitted
    }

    /// Takes the lines that are yet to be written to the internal log.
    pub fn take_unwritten(&mut self) -> (lines: Vec<String>)
        ensures
            texts_view(lines@) == old(self)@.unwritten,
            final(self)@ == (LogView { unwritten: Seq::empty(), ..old(self)@ }),
    {
        let mut lines: Vec<String> = Vec::new();
        std::mem::swap(&mut lines, &mut self.unwritten);
        assert(self@.unwritten =~= Seq::<Seq<char>>::empty());
        lines
    }
}

/// Keeping the last elements after each step loses nothing that keeping them
/// once at the end would have kept.
pub proof fn law_keep_last_step<A>(s: Seq<A>, next: A, limit: nat)
    requires
        limit > 0,
    ensures
        keep_last(keep_last(s, limit).push(next), limit) == keep_last(s.push(next), limit),
{
    assert(keep_last(keep_last(s, limit).push(next), limit) =~= keep_last(s.push(next), limit));
}

/// Logging `added` one after another, on top of `logs`.
pub open spec fn push_all(logs: LogView, added: Seq<LineView>) -> LogView
    decreases added.len(),
{
    if added.len() == 0 {
        logs
    } else {
        push_all(logs, added.drop_last()).pushed(added.last())
    }
}

/// However many messages are logged, the log holds exactly the most recent
/// ones, in the order in which they came.
pub proof fn law_log_holds_most_recent(logs: LogView, added: Seq<LineView>)
    requires
        logs.messages.len() <= LOG_BUFFER_LIMIT,
    ensures
        push_all(logs, added).messages == keep_last(
            logs.messages + added.map_values(|line: LineView| line.print),
            LOG_BUFFER_LIMIT as nat,
        ),
        push_all(logs, added).messages.len() <= LOG_BUFFER_LIMIT,
    decreases added.len(),
{
    let print = |line: LineView| line.print;
    if added.len() == 0 {
        assert(logs.messages + added.map_values(print) =~= logs.messages);
    } else {
        let before = logs.messages + added.drop_last().map_values(print);
        law_log_holds_most_recent(logs, added.drop_last());
        law_keep_last_step(before, added.last().print, LOG_BUFFER_LIMIT as nat);
        assert(before.push(added.last().print) =~= logs.messages + added.map_values(print));
    }
}

/// Every message is handed out to be written, once and in order, whether or not
/// it is still in the log.
pub proof fn law_every_message_is_written(logs: LogView, added: Seq<LineView>)
    ensures
        push_all(logs, added).unwritten == logs.unwritten + added.map_values(
            |line: LineView| line.written(),
        ),
    decreases added.len(),
{
    let written = |line: LineView| line.written();
    if added.len() > 0 {
        law_every_message_is_written(logs, added.drop_last());
        assert(logs.unwritten + added.map_values(written) =~= (logs.unwritten
            + added.drop_last().map_values(written)).push(added.last().written()));
    } else {
        assert(logs.unwritten + added.map_values(written) =~= logs.unwritten);
    }
}

/// Every message is counted, also once the log is full: after any messages the
/// count is another than before.
pub proof fn law_every_message_is_counted(logs: LogView, added: Seq<LineView>)
    ensures
        push_all(logs, added).emitted == (logs.emitted + added.len()) % 0x1_0000_0000_0000_0000,
        0 < added.len() <= u64::MAX ==> push_all(logs, added).emitted != logs.emitted,
    decreases added.len(),
{
    if added.len() > 0 {
        law_every_message_is_counted(logs, added.drop_last());
    }
}

/// What is kept is the end of the list, and all of it where that is not too
/// long.
pub proof fn law_the_end_is_kept<A>(dropped: Seq<A>, kept: Seq<A>, limit: nat)
    ensures
        keep_last(dropped + kept, kept.len()) == kept,
        kept.len() <= limit ==> keep_last(kept, limit) == kept,
{
    assert(keep_last(dropped + kept, kept.len()) =~= kept);
}

/// A message that is logged is the newest one. All the others stay where the
/// log has room, and otherwise all but the oldest one.
pub proof fn law_newest_message_comes_last(logs: LogView, line: LineView)
    requires
        logs.messages.len() <= 200,
    ensures
        logs.messages.len() < 200 ==> logs.pushed(line).messages == logs.messages.push(line.print),
        logs.messages.len() == 200 ==> logs.pushed(line).messages == logs.messages.skip(1).push(
            line.print,
        ),
        logs.pushed(line).unwritten == logs.unwritten.push(line.written()),
        logs.pushed(line).emitted != logs.emitted,
        logs.emitted < u64::MAX ==> logs.pushed(line).emitted == logs.emitted + 1,
{
    let pushed = logs.messages.push(line.print);
    if logs.messages.len() == 200 {
        assert(pushed.skip(1) =~= logs.messages.skip(1).push(line.print));
    }
}

/// A message is written in full, whatever it says, after a mark of where it
/// comes from.
pub proof fn law_messages_are_written_in_full(print: PrintView)
    ensures
        (LineView { source: LogSource::Client, print }).written() == "[APC] "@ + print.text(),
        (LineView { source: LogSource::Server, print }).written() == "[APS] "@ + print.text(),
{
}

/// Logging messages in two goes is the same as in one.
pub proof fn law_logging_adds_up(logs: LogView, a: Seq<LineView>, b: Seq<LineView>)
    ensures
        push_all(logs, Seq::empty()) == logs,
        push_all(logs, a + b) == push_all(push_all(logs, a), b),
    decreases b.len(),
{
    if b.len() == 0 {
        assert(a + b =~= a);
    } else {
        law_logging_adds_up(logs, a, b.drop_last());
        assert((a + b).drop_last() =~= a + b.drop_last());
    }
}

} // verus!
