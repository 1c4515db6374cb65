//! The interface that each game's client offers to the code they share.

use vstd::prelude::*;

use crate::core_base::{events_view, CoreBase, CoreBaseView, Event, EventView, Frame, UpdateStep};
use crate::error::CoreError;
use crate::print::Print;

verus! {

/// An access to one of the game's event flags.
#[derive(Clone, Copy, Debug, PartialEq, Eq, Structural)]
pub enum EventRequest {
    /// Read the flag.
    Read { flag: u32 },
    /// Set the flag to a value.
    Write { flag: u32, value: bool },
}

/// How a command that the player typed is dealt with.
#[derive(Clone, Copy, Debug, PartialEq, Eq, Structural)]
pub enum CommandStep {
    /// The game has no such command.
    Unhandled,
    /// Nothing is left to do.
    Handled,
    /// One of the game's event flags is to be accessed, and the outcome to be
    /// reported.
    Access(EventRequest),
}

/// The steps in which a game's own logic runs each frame.
#[derive(Clone, Copy, Debug, PartialEq, Eq, Structural)]
pub enum LiveStep {
    /// Nothing has run yet this frame.
    Start,
    /// Compare the seeds of the room, the configuration and the save.
    CheckSeed,
    /// Check that the downloadable content that the seed expects is there.
    CheckDlc,
    /// Deal with the events that were put aside.
    Events,
    /// Deal with the player's death.
    SendDeathLink,
    /// Hand a new item to the player.
    IncomingItems,
    /// Deal with the placeholders in the player's inventory.
    InventoryItems,
    /// Hint what the open shop sells.
    ShopHints,
    /// Tell the server that the player has won.
    Goal,
    /// Nothing is left to do this frame.
    Finished,
}

/// How far along a frame's logic a step stands.
pub open spec fn live_rank(step: LiveStep) -> nat {
    match step {
        LiveStep::Start => 0,
        LiveStep::CheckSeed => 1,
        LiveStep::CheckDlc => 2,
        LiveStep::Events => 3,
        LiveStep::SendDeathLink => 4,
        LiveStep::IncomingItems => 5,
        LiveStep::InventoryItems => 6,
        LiveStep::ShopHints => 7,
        LiveStep::Goal => 8,
        LiveStep::Finished => 9,
    }
}

/// The step of a game's own logic to run where `next` is the one whose turn it
/// is: that one, unless the step before it failed or there is no connection.
pub open spec fn live_step(next: LiveStep, failed: bool, connected: bool) -> LiveStep {
    if failed || !connected {
        LiveStep::Finished
    } else {
        next
    }
}

/// The client for one game.
pub trait Core: Sized {
    /// The part that every game shares.
    spec fn spec_base(self) -> CoreBase;

    /// This client with another shared part.
    spec fn with_base(self, base: CoreBase) -> Self;

    /// Returns the base struct.
    fn base(&self) -> (base: &CoreBase)
        ensures
            *base == self.spec_base(),
    ;

    /// Returns the mutable base struct.
    fn base_mut(&mut self) -> (base: &mut CoreBase)
        ensures
            *base == old(self).spec_base(),
            *final(self) == old(self).with_base(*final(base)),
            final(self).spec_base() == *final(base),
    ;

    /// How this game deals with a command.
    spec fn command_step(self, command: Seq<char>, arg: Option<Seq<char>>) -> CommandStep;

    /// The shared part once this game has dealt with a command.
    spec fn command_base(self, command: Seq<char>, arg: Option<Seq<char>>) -> CoreBaseView;

    /// Handles a command that the player typed.
    fn handle_command(&mut self, command: &str, arg: Option<&str>) -> (step: CommandStep)
        requires
            old(self).spec_base().wf(),
        ensures
            final(self).spec_base().wf(),
            ({
                let arg_text = match arg {
                    Some(arg) => Some(arg@),
                    None => None,
                };
                &&& step == old(self).command_step(command@, arg_text)
                &&& final(self).spec_base()@ == old(self).command_base(command@, arg_text)
            }),
            *final(self) == old(self).with_base(final(self).spec_base()),
            step is Unhandled ==> *final(self) == *old(self),
    ;

    /// The step that follows `step` in this game.
    spec fn step_after(step: LiveStep) -> LiveStep;

    /// The step that follows `step` in this game.
    fn next_step(step: LiveStep) -> (next: LiveStep)
        ensures
            next == Self::step_after(step),
    ;

    /// The step of the game's own logic to run after `step`, given how that
    /// one went: an error ends the frame's logic. Nothing runs while there is
    /// no connection.
    fn update_live(step: LiveStep, outcome: &Result<(), CoreError>, connected: bool) -> (next:
        LiveStep)
        ensures
            next == live_step(Self::step_after(step), *outcome is Err, connected),
    {
        match outcome {
            Ok(()) if connected => Self::next_step(step),
            _ => LiveStep::Finished,
        }
    }

    /// The seed that the game expects to connect to.
    fn seed(&self) -> (seed: &str)
        ensures
            seed@ == self.spec_base()@.config.seed,
    {
        self.base().config().seed()
    }

    /// Writes a message to the log that is displayed to the player.
    fn log(&mut self, print: Print)
        requires
            old(self).spec_base().wf(),
        ensures
            final(self).spec_base().wf(),
            final(self).spec_base()@ == old(self).spec_base()@.logged(print@),
            *final(self) == old(self).with_base(final(self).spec_base()),
    {
        self.base_mut().log(print);
    }

    /// Consumes and returns all the as-yet-unprocessed events.
    fn take_events(&mut self) -> (events: Vec<Event>)
        ensures
            events_view(events@) == old(self).spec_base()@.events,
            final(self).spec_base()@ == (CoreBaseView {
                events: Seq::<EventView>::empty(),
                ..old(self).spec_base()@
            }),
            final(self).spec_base().wf() == old(self).spec_base().wf(),
            *final(self) == old(self).with_base(final(self).spec_base()),
    {
        self.base_mut().take_events()
    }

    /// Whether `after` is this client once the game is no longer loaded.
    spec fn unloaded(self, after: Self) -> bool;

    /// Forgets what is not to be remembered across loads.
    fn unload(&mut self)
        ensures
            old(self).unloaded(*final(self)),
            final(self).spec_base() == old(self).spec_base(),
    ;

    /// Runs the logic that every frame begins with, and says whether the
    /// game's own logic is to follow.
    fn update(&mut self, frame: Frame, version: &str) -> (step: UpdateStep)
        requires
            old(self).spec_base().wf(),
        ensures
            final(self).spec_base().wf(),
            (final(self).spec_base()@, step) == old(self).spec_base()@.updated(frame, version@),
            if frame.is_main_menu {
                old(self).with_base(final(self).spec_base()).unloaded(*final(self))
            } else {
                *final(self) == old(self).with_base(final(self).spec_base())
            },
    {
        let is_main_menu: bool = frame.is_main_menu;
        let step: UpdateStep = self.base_mut().update(frame, version);
        if is_main_menu {
            self.unload();
        }
        step
    }
}

/// A live update does nothing while there is no connection: it is finished
/// before its first step.
pub proof fn law_no_live_update_without_connection<C: Core>(step: LiveStep, failed: bool)
    ensures
        live_step(C::step_after(step), failed, false) == LiveStep::Finished,
{
}

/// A step that fails is the last one of its frame.
pub proof fn law_failed_step_is_last<C: Core>(step: LiveStep, connected: bool)
    ensures
        live_step(C::step_after(step), true, connected) == LiveStep::Finished,
{
}

/// While there is a connection and nothing fails, the steps of a game follow
/// each other without gaps.
pub proof fn law_steps_follow_each_other<C: Core>(step: LiveStep)
    ensures
        live_step(C::step_after(step), false, true) == C::step_after(step),
{
}

} // verus!
