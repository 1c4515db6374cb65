//! The client for Dark Souls III.

use std::collections::HashSet;

use vstd::prelude::*;
use vstd::string::*;

use crate::client::{CommandStep, Core as SharedCore, EventRequest, LiveStep};
use crate::clock::{elapsed, spec_elapsed, WallTime, SECOND};
use crate::command::{flag_and_value, parse_flag_and_value};
use crate::config::Config;
use crate::core_base::{events_view, CoreBase, CoreBaseView, Event, EventView};
use crate::error::{CoreError, CoreErrorView, MissingDlc};
use crate::game::GameType;
use crate::inventory::{
    inventory_actions, locations_with, owes_report, process_items, should_report, InventoryAction,
    InventoryItem, PATH_OF_THE_DRAGON,
};
use crate::items::{
    check_seed_conflict, incoming, next_item, save_seed, save_view, seed_conflict, take_next_item,
    with_seed, ItemStack, ItemTable, ReceivedItem, SaveData, SaveDataView,
};
use crate::log_buffer::LogView;
use crate::print::{Print, PrintView, RichText, RichTextView, TextColor};
use crate::text::{
    bool_name, bool_text, decimal, decimal_text, parse_u32, same_text, u32_of_text,
};

pub mod behavior;
pub mod laws;

verus! {

broadcast use vstd::std_specs::hash::group_hash_axioms;

/// The grace period after either sending or receiving a death link during
/// which no further death links will be sent or received, in nanoseconds.
pub const DEATH_LINK_GRACE_PERIOD: u64 = 30_000_000_000;

/// The item for the Path of the Dragon gesture, in the category of goods.
pub const PATH_OF_THE_DRAGON_ITEM: u32 = 9030;

/// The category of goods, as the highest four bits of an item number have it.
pub const GOODS: u32 = 4;

/// What stands for full durability where the game expects a number.
pub const FULL_DURABILITY: i32 = -1;

/// When deaths are shared with other players.
#[derive(Clone, Copy, Debug, PartialEq, Eq, Structural)]
pub enum DeathLinkOption {
    /// Never.
    Off,
    /// Whenever the player dies.
    AnyDeath,
    /// Whenever the player dies while their souls lie on the ground.
    LostSouls,
}

/// The options that the player chose for this seed.
#[derive(Clone, Copy, Debug, PartialEq, Eq, Structural)]
pub struct Options {
    pub enable_dlc: bool,
    pub death_link: DeathLinkOption,
    /// How many deaths there are to a death link.
    pub death_link_amnesty: u32,
}

/// What an open connection says about the player.
#[derive(Debug)]
pub struct Session {
    /// The seed of the room.
    pub seed: String,
    /// The player's name.
    pub player: String,
    pub options: Options,
}

/// The downloadable content that is installed.
#[derive(Clone, Copy, Debug, PartialEq, Eq, Structural)]
pub struct InstalledDlc {
    pub ashes_of_ariandel: bool,
    pub ringed_city: bool,
}

/// How an item from the server is handed to the player.
#[derive(Clone, Copy, Debug, PartialEq, Eq, Structural)]
pub enum Grant {
    /// As a gesture, announced under the name of an item.
    Gesture { gesture: u32, item: u32 },
    /// As an item.
    Item { stack: ItemStack, durability: i32 },
}

/// How an item from the server is handed to the player.
pub open spec fn grant_for(stack: ItemStack) -> Grant {
    if stack.id / 0x1000_0000 == GOODS && stack.id % 0x1000_0000 == PATH_OF_THE_DRAGON_ITEM {
        Grant::Gesture { gesture: PATH_OF_THE_DRAGON, item: stack.id }
    } else {
        Grant::Item { stack, durability: FULL_DURABILITY }
    }
}

/// What came of accessing an event flag.
#[derive(Clone, Copy, Debug, PartialEq, Eq, Structural)]
pub enum FlagAccess {
    /// The game has no flags at the moment.
    NotLoaded,
    /// The flag was read, or set to this value.
    Done { value: bool },
}

/// Whether to go on with a death link.
#[derive(Clone, Copy, Debug, PartialEq, Eq, Structural)]
pub enum DeathLinkStep {
    /// There is nothing to send.
    Idle,
    /// A death link is to be sent to the server.
    Send,
}

/// What to do about the player's inventory.
#[derive(Debug)]
pub struct InventoryPlan {
    /// What to do in the game, in order.
    pub actions: Vec<InventoryAction>,
    /// Whether to tell the server of the visited locations after that.
    pub report: bool,
}

/// An item on sale in the shop that is open.
#[derive(Clone, Copy, Debug, PartialEq, Eq, Structural)]
pub struct ShopItem {
    pub id: u32,
    /// The location that the item stands for, if it is a placeholder.
    pub location: Option<i64>,
}

/// The locations of the placeholders among `items` that were not hinted
/// before, each once, in order.
pub open spec fn new_hints(hinted: Set<u32>, items: Seq<ShopItem>) -> Seq<i64>
    decreases items.len(),
{
    if items.len() == 0 {
        Seq::empty()
    } else {
        let before = items.drop_last();
        let last = items.last();
        if last.location is Some && !hinted_with(hinted, before).contains(last.id) {
            new_hints(hinted, before).push(last.location->0)
        } else {
            new_hints(hinted, before)
        }
    }
}

/// The hinted items once the placeholders among `items` are added.
pub open spec fn hinted_with(hinted: Set<u32>, items: Seq<ShopItem>) -> Set<u32>
    decreases items.len(),
{
    if items.len() == 0 {
        hinted
    } else {
        let before = hinted_with(hinted, items.drop_last());
        if items.last().location is Some {
            before.insert(items.last().id)
        } else {
            before
        }
    }
}

/// The client for Dark Souls III.
#[derive(Debug)]
pub struct Core {
    base: CoreBase,
    last_item_time: u64,
    locations_sent: usize,
    shop_items_hinted: HashSet<u32>,
    last_death_link: u64,
    sent_goal: bool,
    debug: bool,
}

/// The mathematical form of [Core].
pub struct CoreView {
    /// The part that every game shares.
    pub base: CoreBaseView,
    /// The time when the player was last granted an item.
    pub last_item_time: u64,
    /// The number of locations that the server was told of in this session.
    pub locations_sent: usize,
    /// The items on sale whose hints have been sent to the server since the
    /// game was last loaded.
    pub shop_items_hinted: Set<u32>,
    /// The time when the player last sent or received a death link, or started
    /// the session.
    pub last_death_link: u64,
    /// Whether the server was told in this session that the goal is reached.
    pub sent_goal: bool,
    /// Whether commands that are meant for debugging are offered.
    pub debug: bool,
}

impl View for Core {
    type V = CoreView;

    closed spec fn view(&self) -> CoreView {
        CoreView {
            base: self.base@,
            last_item_time: self.last_item_time,
            locations_sent: self.locations_sent,
            shop_items_hinted: self.shop_items_hinted@,
            last_death_link: self.last_death_link,
            sent_goal: self.sent_goal,
            debug: self.debug,
        }
    }
}

impl CoreView {
    /// Whether death links are currently sent and received.
    pub open spec fn death_link_allowed(self, session: Option<&Session>, now: u64) -> bool {
        &&& session is Some
        &&& session->0.options.death_link != DeathLinkOption::Off
        &&& spec_elapsed(self.last_death_link, now) >= DEATH_LINK_GRACE_PERIOD
    }

    /// Whether a death link that `source` sent at `time` kills the player: it
    /// must come from someone else, and from after the grace period of the
    /// last one.
    pub open spec fn death_link_strikes(
        self,
        source: Seq<char>,
        time: WallTime,
        session: Option<&Session>,
        now: u64,
        wall_now: WallTime,
    ) -> bool {
        &&& self.death_link_allowed(session, now)
        &&& session->0.player@ != source
        &&& time.spec_total_nanos() >= wall_now.spec_total_nanos() - spec_elapsed(
            self.last_death_link,
            now,
        ) + DEATH_LINK_GRACE_PERIOD
    }

    /// Whether one of `events` is a death link that kills the player.
    pub open spec fn any_strikes(
        self,
        events: Seq<EventView>,
        session: Option<&Session>,
        now: u64,
        wall_now: WallTime,
    ) -> bool {
        exists|i: int|
            0 <= i < events.len() && ((#[trigger] events[i]) matches EventView::DeathLink {
                source,
                time,
            } && self.death_link_strikes(source, time, session, now, wall_now))
    }

    /// Whether the player has just died in a way that is to be dealt with.
    pub open spec fn sees_death(
        self,
        session: Option<&Session>,
        hp: Option<i32>,
        save: Option<SaveDataView>,
        now: u64,
    ) -> bool {
        self.death_link_allowed(session, now) && hp == Some(0i32) && save is Some
    }

    /// The client once a death link has killed the player, or has not.
    pub open spec fn struck(self, kill: bool, now: u64) -> CoreView {
        CoreView {
            last_death_link: if kill {
                now
            } else {
                self.last_death_link
            },
            ..self
        }
    }

    /// The client once it has dealt with the events that wait, and whether one
    /// of them killed the player.
    pub open spec fn processed(
        self,
        session: Option<&Session>,
        in_game: bool,
        player_loaded: bool,
        now: u64,
        wall_now: WallTime,
    ) -> (CoreView, bool) {
        if in_game {
            let kill = player_loaded && self.any_strikes(
                self.base.events,
                session,
                now,
                wall_now,
            );
            let base = CoreBaseView { events: Seq::empty(), ..self.base };
            ((CoreView { base, ..self }).struck(kill, now), kill)
        } else {
            (self, false)
        }
    }

    /// The client, the save and what is to be done once the player's health was
    /// looked at.
    pub open spec fn died(
        self,
        session: Option<&Session>,
        hp: Option<i32>,
        bloodstain: bool,
        save: Option<SaveDataView>,
        now: u64,
    ) -> (CoreView, Option<SaveDataView>, DeathLinkStep) {
        let options = session->0.options;
        let deaths = save->0.deaths + 1;
        let counted = Some(SaveDataView { deaths: deaths as u32, ..save->0 });
        if !self.sees_death(session, hp, save, now) {
            (self, save, DeathLinkStep::Idle)
        } else if !death_counts(options.death_link, bloodstain) {
            (CoreView { last_death_link: now, ..self }, save, DeathLinkStep::Idle)
        } else if death_sends(save->0.deaths as nat, options.death_link_amnesty) {
            (self, counted, DeathLinkStep::Send)
        } else {
            let remaining = (options.death_link_amnesty - deaths) as nat;
            let base = self.base.logged(PrintView::of_text(amnesty_text(remaining)));
            (CoreView { base, last_death_link: now, ..self }, counted, DeathLinkStep::Idle)
        }
    }

    /// The client and the save once a death link was sent.
    pub open spec fn link_sent(self, save: Option<SaveDataView>, now: u64) -> (
        CoreView,
        Option<SaveDataView>,
    ) {
        let base = self.base.logged(
            PrintView::of_text("You have sent a death link to your teammates."@),
        );
        (
            CoreView { base, last_death_link: now, ..self },
            match save {
                Some(save) => Some(SaveDataView { deaths: 0, ..save }),
                None => None,
            },
        )
    }

    /// The client, the save and what the player gets once the items that the
    /// server has sent were looked at.
    pub open spec fn after_incoming(
        self,
        received: Option<Seq<ReceivedItem>>,
        table: ItemTable,
        ready: bool,
        save: Option<SaveDataView>,
        now: u64,
    ) -> (CoreView, Option<SaveDataView>, Option<(usize, Grant)>) {
        let waited = can_grant(received is Some, ready, save, self.last_item_time, now);
        let (after, taken) = incoming(received, table, ready, save, waited);
        match taken {
            Some((position, stack)) => (
                CoreView { last_item_time: now, ..self },
                after,
                Some((position, grant_for(stack))),
            ),
            None => (self, after, None),
        }
    }

    /// What becomes of the inventory, whether the server is to be told of the
    /// visited locations, and the save with those locations.
    pub open spec fn after_inventory(
        self,
        items: Seq<InventoryItem>,
        ready: bool,
        connected: bool,
        save: Option<SaveDataView>,
    ) -> (Seq<InventoryAction>, bool, Option<SaveDataView>) {
        match save {
            Some(save) if ready => {
                let after = Some(
                    SaveDataView { locations: locations_with(save.locations, items), ..save },
                );
                (
                    inventory_actions(items),
                    owes_report(after, self.locations_sent, connected),
                    after,
                )
            },
            _ => (Seq::empty(), false, save),
        }
    }

    /// The client once the server was told of the locations of a save.
    pub open spec fn reported(self, save: Option<SaveDataView>) -> CoreView {
        CoreView {
            locations_sent: match save {
                Some(save) => save.locations.len() as usize,
                None => self.locations_sent,
            },
            ..self
        }
    }

    /// The client once the server was told that the player has won.
    pub open spec fn goal_told(self) -> CoreView {
        CoreView { sent_goal: true, ..self }
    }

    /// The client once the game is no longer loaded. Hints are not remembered
    /// across loads, so that the player can quit out and send them again if
    /// something went wrong.
    pub open spec fn unloaded(self) -> CoreView {
        CoreView { shop_items_hinted: Set::empty(), ..self }
    }

    /// The locations to hint for what a shop sells, if there are any and the
    /// server can be told.
    pub open spec fn owed_hints(self, items: Seq<ShopItem>, connected: bool) -> Option<Seq<i64>> {
        let hints = new_hints(self.shop_items_hinted, items);
        if connected && hints.len() > 0 {
            Some(hints)
        } else {
            None
        }
    }

    /// The client once the player was told what came of accessing a flag.
    pub open spec fn accessed(self, request: EventRequest, access: FlagAccess) -> CoreView {
        CoreView { base: self.base.logged(access_print(request, access)), ..self }
    }

    /// The client once the hints for what a shop sells were sent.
    pub open spec fn hinted(self, items: Seq<ShopItem>) -> CoreView {
        CoreView { shop_items_hinted: hinted_with(self.shop_items_hinted, items), ..self }
    }

    /// Whether the server is to be told that the player has won. `flags` holds
    /// the values of the event flags that make up the goal.
    pub open spec fn owes_goal(self, flags: Option<Seq<bool>>, connected: bool) -> bool {
        flags is Some && connected && !self.sent_goal && goal_reached(flags->0)
    }
}

/// Whether a death counts towards a death link.
pub open spec fn death_counts(option: DeathLinkOption, bloodstain: bool) -> bool {
    option != DeathLinkOption::LostSouls || bloodstain
}

/// Whether one more death after `deaths` that went without makes a death link.
pub open spec fn death_sends(deaths: nat, amnesty: u32) -> bool {
    deaths + 1 >= amnesty
}

/// The message that tells the player how many deaths remain until the next
/// death link.
pub open spec fn amnesty_text(remaining: nat) -> Seq<char> {
    "You have been granted death link amnesty. "@ + (if remaining == 1 {
        "1 death remains."@
    } else {
        decimal_text(remaining) + " deaths remain."@
    })
}

/// The message for a command whose argument makes no sense.
pub open spec fn usage_print(command: Seq<char>, usage: Seq<char>) -> PrintView {
    PrintView::of_parts(
        seq![
            RichTextView::Color {
                text: "Invalid "@ + command + "."@,
                color: TextColor::Red,
            },
            RichTextView::Text(" Usage:\n"@),
            RichTextView::Text(usage),
        ],
    )
}

/// Whether a number is that of an event flag: it has at most eight digits, and
/// the second and third of them name an area, of which there are ninety.
pub open spec fn is_flag(flag: u32) -> bool {
    flag <= 99_999_999 && flag / 100_000 % 100 < 90
}

/// The message for a number that no event flag has.
pub open spec fn invalid_flag_print(flag: u32) -> PrintView {
    PrintView::of_parts(
        seq![
            RichTextView::Color {
                text: "Invalid event ID: "@ + decimal_text(flag as nat),
                color: TextColor::Red,
            },
        ],
    )
}

/// The flag that a command names, if its argument makes sense.
pub open spec fn named_flag(command: Seq<char>, arg: Option<Seq<char>>) -> Option<u32> {
    if arg is None {
        None
    } else if command == "!getevent"@ {
        u32_of_text(arg->0)
    } else if flag_and_value(arg->0) is Some {
        let (flag, value) = flag_and_value(arg->0)->0;
        Some(flag)
    } else {
        None
    }
}

/// Whether a command is one of this game's.
pub open spec fn is_own_command(command: Seq<char>, debug: bool) -> bool {
    command == "!getevent"@ || (debug && command == "!setevent"@)
}

/// How a command of this game's is to be used.
pub open spec fn command_usage(command: Seq<char>) -> Seq<char> {
    if command == "!getevent"@ {
        "!getevent EVENT_FLAG"@
    } else {
        "!setevent EVENT_FLAG BOOL"@
    }
}

/// The message that a command is refused with, if the command is one of this
/// game's and its argument makes no sense or names no flag.
pub open spec fn command_error(
    command: Seq<char>,
    arg: Option<Seq<char>>,
    debug: bool,
) -> Option<PrintView> {
    if !is_own_command(command, debug) {
        None
    } else {
        match named_flag(command, arg) {
            None => Some(usage_print(command, command_usage(command))),
            Some(flag) => if is_flag(flag) {
                None
            } else {
                Some(invalid_flag_print(flag))
            },
        }
    }
}

/// How a command is dealt with.
pub open spec fn command_outcome(
    command: Seq<char>,
    arg: Option<Seq<char>>,
    debug: bool,
) -> CommandStep {
    if !is_own_command(command, debug) {
        CommandStep::Unhandled
    } else if command_error(command, arg, debug) is Some {
        CommandStep::Handled
    } else if command == "!getevent"@ {
        CommandStep::Access(EventRequest::Read { flag: u32_of_text(arg->0)->0 })
    } else {
        let (flag, value) = flag_and_value(arg->0)->0;
        CommandStep::Access(EventRequest::Write { flag, value })
    }
}

/// The flag that an access is about.
pub open spec fn requested_flag(request: EventRequest) -> u32 {
    match request {
        EventRequest::Read { flag } => flag,
        EventRequest::Write { flag, .. } => flag,
    }
}

/// The message that tells the player what came of accessing a flag.
pub open spec fn access_print(request: EventRequest, access: FlagAccess) -> PrintView {
    let flag = decimal_text(requested_flag(request) as nat);
    match access {
        FlagAccess::NotLoaded => PrintView::of_parts(
            seq![
                RichTextView::Color {
                    text: "SprjEventFlagMan not loaded"@,
                    color: TextColor::Red,
                },
            ],
        ),
        FlagAccess::Done { value } => PrintView::of_parts(
            seq![
                RichTextView::Text(
                    match request {
                        EventRequest::Read { .. } => "Event "@,
                        EventRequest::Write { .. } => "Set event "@,
                    },
                ),
                RichTextView::Color { text: flag, color: TextColor::Blue },
                RichTextView::Text(
                    match request {
                        EventRequest::Read { .. } => ": "@,
                        EventRequest::Write { .. } => " to "@,
                    },
                ),
                RichTextView::Color {
                    text: bool_text(value),
                    color: if value {
                        TextColor::Green
                    } else {
                        TextColor::Red
                    },
                },
            ],
        ),
    }
}

impl SharedCore for Core {
    closed spec fn spec_base(self) -> CoreBase {
        self.base
    }

    closed spec fn with_base(self, base: CoreBase) -> Core {
        Core { base, ..self }
    }

    fn base(&self) -> (base: &CoreBase) {
        &self.base
    }

    fn base_mut(&mut self) -> (base: &mut CoreBase) {
        &mut self.base
    }

    open spec fn unloaded(self, after: Core) -> bool {
        after@ == self@.unloaded()
    }

    fn unload(&mut self) {
        self.shop_items_hinted = HashSet::new();
    }

    open spec fn step_after(step: LiveStep) -> LiveStep {
        ds3_step_after(step)
    }

    fn next_step(step: LiveStep) -> (next: LiveStep) {
        match step {
            LiveStep::Start => LiveStep::CheckSeed,
            LiveStep::CheckSeed => LiveStep::CheckDlc,
            LiveStep::CheckDlc => LiveStep::Events,
            LiveStep::Events => LiveStep::SendDeathLink,
            LiveStep::SendDeathLink => LiveStep::IncomingItems,
            LiveStep::IncomingItems => LiveStep::InventoryItems,
            LiveStep::InventoryItems => LiveStep::ShopHints,
            LiveStep::ShopHints => LiveStep::Goal,
            LiveStep::Goal => LiveStep::Finished,
            LiveStep::Finished => LiveStep::Finished,
        }
    }

    open spec fn command_step(self, command: Seq<char>, arg: Option<Seq<char>>) -> CommandStep {
        command_outcome(command, arg, self@.debug)
    }

    open spec fn command_base(self, command: Seq<char>, arg: Option<Seq<char>>) -> CoreBaseView {
        match command_error(command, arg, self@.debug) {
            Some(print) => self@.base.logged(print),
            None => self@.base,
        }
    }

    fn handle_command(&mut self, command: &str, arg: Option<&str>) -> (step: CommandStep) {
        proof {
            reveal_strlit("!getevent");
            reveal_strlit("!setevent");
            assert("!getevent"@[1] != "!setevent"@[1]);
        }
        if same_text(command, "!getevent") {
            let flag: Option<u32> = match arg {
                Some(arg) => parse_u32(arg),
                None => None,
            };
            match flag {
                Some(flag) if is_event_flag(flag) => {
                    CommandStep::Access(EventRequest::Read { flag })
                },
                Some(flag) => {
                    self.base.log(invalid_flag_message(flag));
                    CommandStep::Handled
                },
                None => {
                    self.base.log(usage_message(command, "!getevent EVENT_FLAG"));
                    CommandStep::Handled
                },
            }
        } else if self.debug && same_text(command, "!setevent") {
            let parsed: Option<(u32, bool)> = match arg {
                Some(arg) => parse_flag_and_value(arg),
                None => None,
            };
            match parsed {
                Some((flag, value)) if is_event_flag(flag) => {
                    CommandStep::Access(EventRequest::Write { flag, value })
                },
                Some((flag, _)) => {
                    self.base.log(invalid_flag_message(flag));
                    CommandStep::Handled
                },
                None => {
                    self.base.log(usage_message(command, "!setevent EVENT_FLAG BOOL"));
                    CommandStep::Handled
                },
            }
        } else {
            CommandStep::Unhandled
        }
    }
}

/// The order in which this game's own logic runs.
pub open spec fn ds3_step_after(step: LiveStep) -> LiveStep {
    match step {
        LiveStep::Start => LiveStep::CheckSeed,
        LiveStep::CheckSeed => LiveStep::CheckDlc,
        LiveStep::CheckDlc => LiveStep::Events,
        LiveStep::Events => LiveStep::SendDeathLink,
        LiveStep::SendDeathLink => LiveStep::IncomingItems,
        LiveStep::IncomingItems => LiveStep::InventoryItems,
        LiveStep::InventoryItems => LiveStep::ShopHints,
        LiveStep::ShopHints => LiveStep::Goal,
        LiveStep::Goal => LiveStep::Finished,
        LiveStep::Finished => LiveStep::Finished,
    }
}

/// The message for a command whose argument makes no sense.
fn usage_message(command: &str, usage: &str) -> (print: Print)
    ensures
        print@ == usage_print(command@, usage@),
{
    let invalid: String = "Invalid ".to_owned().concat(command).concat(".");
    let print: Print = Print::from_parts(
        vec![
            RichText::colored(invalid.as_str(), TextColor::Red),
            RichText::plain(" Usage:\n"),
            RichText::plain(usage),
        ],
    );
    assert(print@.data =~= usage_print(command@, usage@).data);
    print
}

/// Whether a number is that of an event flag.
pub fn is_event_flag(flag: u32) -> (valid: bool)
    ensures
        valid == is_flag(flag),
{
    flag <= 99_999_999 && flag / 100_000 % 100 < 90
}

/// The message for a number that no event flag has.
fn invalid_flag_message(flag: u32) -> (print: Print)
    ensures
        print@ == invalid_flag_print(flag),
{
    let text: String = "Invalid event ID: ".to_owned().concat(decimal(flag).as_str());
    let print: Print = Print::from_parts(vec![RichText::colored(text.as_str(), TextColor::Red)]);
    assert(print@.data =~= invalid_flag_print(flag).data);
    print
}

/// The message that tells the player what came of accessing a flag.
fn access_message(request: EventRequest, access: FlagAccess) -> (print: Print)
    ensures
        print@ == access_print(request, access),
{
    let (flag, verb, link): (u32, &str, &str) = match request {
        EventRequest::Read { flag } => (flag, "Event ", ": "),
        EventRequest::Write { flag, .. } => (flag, "Set event ", " to "),
    };
    let number: String = decimal(flag);
    let parts: Vec<RichText> = match access {
        FlagAccess::NotLoaded => {
            vec![RichText::colored("SprjEventFlagMan not loaded", TextColor::Red)]
        },
        FlagAccess::Done { value } => {
            let color: TextColor = if value {
                TextColor::Green
            } else {
                TextColor::Red
            };
            vec![
                RichText::plain(verb),
                RichText::colored(number.as_str(), TextColor::Blue),
                RichText::plain(link),
                RichText::colored(bool_name(value), color),
            ]
        },
    };
    let print: Print = Print::from_parts(parts);
    assert(print@.data =~= access_print(request, access).data);
    print
}

impl Core {
    /// A client is well-formed if its shared part is.
    pub open spec fn wf(self) -> bool {
        self.spec_base().wf()
    }

    /// The shared part of a client is the one that its mathematical form shows,
    /// and replacing it leaves everything else alone.
    pub proof fn law_shared_part(self, base: CoreBase)
        ensures
            self.spec_base()@ == self@.base,
            self.with_base(base)@ == (CoreView { base: base@, ..self@ }),
            self.with_base(base).spec_base() == base,
    {
    }

    /// Creates a client whose session starts at `now`.
    pub fn new(config: Config, now: u64, debug: bool) -> (core: Core)
        ensures
            core.wf(),
            core@ == (CoreView {
                base: CoreBaseView {
                    game: GameType::DarkSoulsIII.spec_world_name(),
                    config: config@,
                    logs: LogView::empty(),
                    events: Seq::empty(),
                    load_time: None,
                    error: None,
                },
                last_item_time: now,
                locations_sent: 0,
                shop_items_hinted: Set::empty(),
                last_death_link: now,
                sent_goal: false,
                debug,
            }),
    {
        let game: String = GameType::DarkSoulsIII.world_name().to_owned();
        Core {
            base: CoreBase::new(game, config),
            last_item_time: now,
            locations_sent: 0,
            shop_items_hinted: HashSet::new(),
            last_death_link: now,
            sent_goal: false,
            debug,
        }
    }

    /// Reports to the player what came of accessing an event flag.
    pub fn finish_access(&mut self, request: EventRequest, access: FlagAccess)
        requires
            old(self).wf(),
        ensures
            final(self).wf(),
            final(self)@ == (CoreView {
                base: old(self)@.base.logged(access_print(request, access)),
                ..old(self)@
            }),
            final(self)@ == old(self)@.accessed(request, access),
    {
        self.base.log(access_message(request, access));
    }

    /// Returns an error if the seeds of the server's room, the save and the
    /// configuration are not all the same. If they are, and the save has none
    /// yet, it is given that of the configuration.
    pub fn check_seed_conflict(
        &self,
        session: Option<&Session>,
        save: &mut Option<SaveData>,
    ) -> (checked: Result<(), CoreError>)
        ensures
            ({
                let room = match session {
                    Some(session) => Some(session.seed@),
                    None => None,
                };
                let conflict = seed_conflict(
                    GameType::DarkSoulsIII,
                    room,
                    self@.base.config.seed,
                    save_seed(save_view(*old(save))),
                );
                match checked {
                    Ok(()) => conflict is None && save_view(*final(save)) == with_seed(
                        save_view(*old(save)),
                        self@.base.config.seed,
                    ),
                    Err(error) => conflict == Some(error@) && *final(save) == *old(save),
                }
            }),
    {
        let room: Option<&str> = match session {
            Some(session) => Some(session.seed.as_str()),
            None => None,
        };
        check_seed_conflict(GameType::DarkSoulsIII, room, self.base.config().seed(), save)
    }

    /// Returns an error if this seed expects downloadable content that is not
    /// installed. What is installed only shows once the player is in a game.
    pub fn check_dlc_error(
        &self,
        session: Option<&Session>,
        installed: Option<InstalledDlc>,
        in_game: bool,
    ) -> (checked: Result<(), CoreError>)
        ensures
            match checked {
                Ok(()) => dlc_error(session, installed, in_game) is None,
                Err(error) => dlc_error(session, installed, in_game) == Some(error@),
            },
    {
        let enabled: bool = match session {
            Some(session) => session.options.enable_dlc,
            None => false,
        };
        match installed {
            Some(dlc) if in_game && enabled && (!dlc.ashes_of_ariandel || !dlc.ringed_city) => {
                let missing: MissingDlc = if dlc.ashes_of_ariandel {
                    MissingDlc::RingedCity
                } else if dlc.ringed_city {
                    MissingDlc::AshesOfAriandel
                } else {
                    MissingDlc::Both
                };
                Err(CoreError::MissingDlc(missing))
            },
            _ => Ok(()),
        }
    }

    /// Whether death links, sending or receiving, are currently allowed.
    pub fn allow_death_link(&self, session: Option<&Session>, now: u64) -> (allowed: bool)
        ensures
            allowed == self@.death_link_allowed(session, now),
    {
        match session {
            Some(session) => session.options.death_link != DeathLinkOption::Off && elapsed(
                self.last_death_link,
                now,
            ) >= DEATH_LINK_GRACE_PERIOD,
            None => false,
        }
    }

    /// Decides whether a death link kills the player, who is only there to be
    /// killed if `player_loaded`.
    pub fn receive_death_link(
        &mut self,
        source: &str,
        time: WallTime,
        session: Option<&Session>,
        player_loaded: bool,
        now: u64,
        wall_now: WallTime,
    ) -> (kill: bool)
        ensures
            kill == (player_loaded && old(self)@.death_link_strikes(
                source@,
                time,
                session,
                now,
                wall_now,
            )),
            final(self)@ == (CoreView {
                last_death_link: if kill {
                    now
                } else {
                    old(self)@.last_death_link
                },
                ..old(self)@
            }),
            final(self)@ == old(self)@.struck(kill, now),
            final(self).wf() == old(self).wf(),
    {
        if !self.allow_death_link(session, now) {
            return false;
        }
        match session {
            Some(session) => {
                if same_text(session.player.as_str(), source) {
                    return false;
                }
            },
            None => {
                return false;
            },
        }
        let last: i128 = wall_now.total_nanos() - elapsed(self.last_death_link, now) as i128;
        if time.total_nanos() < last + DEATH_LINK_GRACE_PERIOD as i128 || !player_loaded {
            return false;
        }
        self.last_death_link = now;
        true
    }

    /// Deals with the events that were put aside until the player is in the
    /// game, and says whether one of them kills the player. If the player is not
    /// `in_game` but on the main menu, the events go on waiting.
    pub fn process_events(
        &mut self,
        session: Option<&Session>,
        in_game: bool,
        player_loaded: bool,
        now: u64,
        wall_now: WallTime,
    ) -> (kill: bool)
        ensures
            kill == (in_game && player_loaded && old(self)@.any_strikes(
                old(self)@.base.events,
                session,
                now,
                wall_now,
            )),
            !in_game ==> *final(self) == *old(self),
            in_game ==> final(self)@ == (CoreView {
                base: CoreBaseView { events: Seq::empty(), ..old(self)@.base },
                last_death_link: if kill {
                    now
                } else {
                    old(self)@.last_death_link
                },
                ..old(self)@
            }),
            (final(self)@, kill) == old(self)@.processed(
                session,
                in_game,
                player_loaded,
                now,
                wall_now,
            ),
            final(self).wf() == old(self).wf(),
    {
        if !in_game {
            return false;
        }
        let events: Vec<Event> = self.base.take_events();
        let ghost all = events_view(events@);
        let ghost start = self@;
        let mut kill: bool = false;
        let mut i: usize = 0;
        while i < events.len()
            invariant
                i <= events@.len(),
                all == events_view(events@),
                self.wf() == old(self).wf(),
                start.last_death_link == old(self)@.last_death_link,
                kill == (player_loaded && start.any_strikes(
                    all.take(i as int),
                    session,
                    now,
                    wall_now,
                )),
                self@ == (CoreView {
                    last_death_link: if kill {
                        now
                    } else {
                        start.last_death_link
                    },
                    ..start
                }),
            decreases events@.len() - i,
        {
            let ghost before = all.take(i as int);
            let ghost after = all.take(i + 1);
            proof {
                assert(after[i as int] == all[i as int]);
                assert(forall|j: int|
                    #![trigger before[j]]
                    #![trigger after[j]]
                    0 <= j < i ==> before[j] == after[j]);
            }
            if let Event::DeathLink { source, time } = &events[i] {
                if self.receive_death_link(
                    source.as_str(),
                    *time,
                    session,
                    player_loaded,
                    now,
                    wall_now,
                ) {
                    kill = true;
                }
            }
            proof {
                if player_loaded && start.any_strikes(before, session, now, wall_now) {
                    let j = choose|j: int|
                        0 <= j < before.len() && ((#[trigger] before[j]) matches EventView::DeathLink {
                            source,
                            time,
                        } && start.death_link_strikes(source, time, session, now, wall_now));
                    assert(after[j] == before[j]);
                }
            }
            i = i + 1;
        }
        assert(all.take(all.len() as int) =~= all);
        kill
    }
}

/// How an item from the server is handed to the player.
fn grant(stack: ItemStack) -> (grant: Grant)
    ensures
        grant == grant_for(stack),
{
    if stack.id / 0x1000_0000 == GOODS && stack.id % 0x1000_0000 == PATH_OF_THE_DRAGON_ITEM {
        Grant::Gesture { gesture: PATH_OF_THE_DRAGON, item: stack.id }
    } else {
        Grant::Item { stack, durability: FULL_DURABILITY }
    }
}

/// Whether the player can be granted an item now: there must be a connection,
/// a game and a save, and it must be a second since the last one.
pub open spec fn can_grant(
    connected: bool,
    ready: bool,
    save: Option<SaveDataView>,
    last_item_time: u64,
    now: u64,
) -> bool {
    connected && ready && save is Some && spec_elapsed(last_item_time, now) >= SECOND
}

impl Core {
    /// Whether the player can be granted an item now. `received` is what the
    /// open connection has sent, and `ready` says whether the game can take an
    /// item.
    pub fn may_grant(
        &self,
        received: Option<&Vec<ReceivedItem>>,
        ready: bool,
        save: &Option<SaveData>,
        now: u64,
    ) -> (may: bool)
        ensures
            may == can_grant(
                received is Some,
                ready,
                save_view(*save),
                self@.last_item_time,
                now,
            ),
    {
        received.is_some() && ready && save.is_some() && elapsed(self.last_item_time, now)
            >= SECOND
    }

    /// Hands the next new item to the player when appropriate. `received` is
    /// what the open connection has sent, and `ready` says whether the game
    /// can take an item. This also initializes the save data for a new file.
    ///
    /// The item is returned with its position in `received`.
    pub fn process_incoming_items(
        &mut self,
        received: Option<&Vec<ReceivedItem>>,
        table: &ItemTable,
        ready: bool,
        save: &mut Option<SaveData>,
        now: u64,
    ) -> (granted: Option<(usize, Grant)>)
        requires
            can_grant(
                received is Some,
                ready,
                save_view(*old(save)),
                old(self)@.last_item_time,
                now,
            ) ==> {
                &&& old(save)->0.items_granted < usize::MAX
                &&& table.knows_next(received->0@, old(save)->0.items_granted)
            },
        ensures
            ({
                let start = save_view(*old(save));
                let next = next_item(received->0@, start->0.items_granted, 0);
                if can_grant(received is Some, ready, start, old(self)@.last_item_time, now)
                    && next < received->0@.len() {
                    &&& granted == Some(
                        (next as usize, grant_for(table.spec_resolve(received->0@[next].id))),
                    )
                    &&& save_view(*final(save)) == Some(
                        SaveDataView {
                            items_granted: (start->0.items_granted + 1) as usize,
                            ..start->0
                        },
                    )
                    &&& final(self)@ == (CoreView { last_item_time: now, ..old(self)@ })
                } else {
                    &&& granted is None
                    &&& if received is Some && ready && start is None {
                        save_view(*final(save)) == Some(SaveDataView::initial())
                    } else {
                        *final(save) == *old(save)
                    }
                    &&& *final(self) == *old(self)
                }
            }),
            (final(self)@, save_view(*final(save)), granted) == old(self)@.after_incoming(
                match received {
                    Some(received) => Some(received@),
                    None => None,
                },
                *table,
                ready,
                save_view(*old(save)),
                now,
            ),
            final(self).wf() == old(self).wf(),
    {
        if !self.may_grant(received, ready, save, now) {
            if received.is_some() && ready && save.is_none() {
                *save = Some(SaveData::new());
            }
            return None;
        }
        match (received, save) {
            (Some(received), Some(data)) => {
                match take_next_item(data, received, table) {
                    Some((next, stack)) => {
                        self.last_item_time = now;
                        Some((next, grant(stack)))
                    },
                    None => None,
                }
            },
            _ => None,
        }
    }

    /// Decides what becomes of the placeholders in the player's inventory, and
    /// whether the server is then to be told that they've been accessed.
    /// `ready` says whether the game's inventory and tables are available.
    pub fn process_inventory_items(
        &self,
        items: &Vec<InventoryItem>,
        ready: bool,
        connected: bool,
        save: &mut Option<SaveData>,
    ) -> (plan: InventoryPlan)
        ensures
            ({
                let start = save_view(*old(save));
                if ready && start is Some {
                    &&& plan.actions@ == inventory_actions(items@)
                    &&& save_view(*final(save)) == Some(
                        SaveDataView {
                            locations: locations_with(start->0.locations, items@),
                            ..start->0
                        },
                    )
                    &&& plan.report == owes_report(
                        save_view(*final(save)),
                        self@.locations_sent,
                        connected,
                    )
                } else {
                    &&& plan.actions@ == Seq::<InventoryAction>::empty()
                    &&& !plan.report
                    &&& *final(save) == *old(save)
                }
            }),
            (plan.actions@, plan.report, save_view(*final(save))) == self@.after_inventory(
                items@,
                ready,
                connected,
                save_view(*old(save)),
            ),
    {
        if !ready {
            return InventoryPlan { actions: Vec::new(), report: false };
        }
        let actions: Vec<InventoryAction> = match save {
            Some(data) => process_items(data, items),
            None => Vec::new(),
        };
        let report: bool = should_report(save, self.locations_sent, connected);
        InventoryPlan { actions, report }
    }

    /// Takes note that the server was told of the visited locations.
    pub fn locations_reported(&mut self, save: &Option<SaveData>)
        ensures
            final(self)@ == (CoreView {
                locations_sent: match save_view(*save) {
                    Some(save) => save.locations.len() as usize,
                    None => old(self)@.locations_sent,
                },
                ..old(self)@
            }),
            final(self)@ == old(self)@.reported(save_view(*save)),
            final(self).wf() == old(self).wf(),
    {
        if let Some(data) = save {
            self.locations_sent = data.locations.len();
        }
    }

    /// If a shop is open, finds the locations of what it sells that are to be
    /// hinted to the server.
    pub fn send_shop_hints(
        &self,
        items: &Vec<ShopItem>,
        connected: bool,
    ) -> (locations: Option<Vec<i64>>)
        ensures
            ({
                let hints = new_hints(self@.shop_items_hinted, items@);
                match locations {
                    Some(locations) => connected && locations@ == hints && hints.len() > 0,
                    None => !connected || hints.len() == 0,
                }
            }),
            self@.owed_hints(items@, connected) == (match locations {
                Some(locations) => Some(locations@),
                None => None,
            }),
    {
        let ghost hinted = self@.shop_items_hinted;
        let mut seen: HashSet<u32> = HashSet::new();
        let mut locations: Vec<i64> = Vec::new();
        let mut i: usize = 0;
        proof {
            assert(items@.take(0) =~= Seq::<ShopItem>::empty());
            assert(hinted.union(seen@) =~= hinted);
        }
        while i < items.len()
            invariant
                i <= items@.len(),
                hinted == self@.shop_items_hinted,
                locations@ == new_hints(hinted, items@.take(i as int)),
                hinted_with(hinted, items@.take(i as int)) == hinted.union(seen@),
            decreases items@.len() - i,
        {
            let item: ShopItem = items[i];
            let ghost seen_before = seen@;
            assert(items@.take(i + 1).drop_last() =~= items@.take(i as int));
            if let Some(location) = item.location {
                let sent: bool = self.shop_items_hinted.contains(&item.id);
                if seen.insert(item.id) && !sent {
                    locations.push(location);
                }
                assert(hinted.union(seen_before).insert(item.id) =~= hinted.union(seen@));
            }
            i = i + 1;
        }
        assert(items@.take(items@.len() as int) =~= items@);
        if locations.len() > 0 && connected {
            Some(locations)
        } else {
            None
        }
    }

    /// Takes note that the hints for what a shop sells were sent to the server.
    pub fn hints_sent(&mut self, items: &Vec<ShopItem>)
        ensures
            final(self)@ == old(self)@.hinted(items@),
            final(self).wf() == old(self).wf(),
    {
        let ghost start = self@;
        let mut i: usize = 0;
        assert(items@.take(0) =~= Seq::<ShopItem>::empty());
        while i < items.len()
            invariant
                i <= items@.len(),
                self.wf() == old(self).wf(),
                self@ == start.hinted(items@.take(i as int)),
            decreases items@.len() - i,
        {
            let item: ShopItem = items[i];
            assert(items@.take(i + 1).drop_last() =~= items@.take(i as int));
            if item.location.is_some() {
                self.shop_items_hinted.insert(item.id);
            }
            i = i + 1;
        }
        assert(items@.take(items@.len() as int) =~= items@);
    }

    /// Deals with the player's death: counts it, and says whether a death link
    /// is to be sent for it. `hp` is the player's health, if there is a player
    /// in the game, and `bloodstain` says whether their souls lie on the
    /// ground.
    pub fn send_death_link(
        &mut self,
        session: Option<&Session>,
        hp: Option<i32>,
        bloodstain: bool,
        save: &mut Option<SaveData>,
        now: u64,
    ) -> (step: DeathLinkStep)
        requires
            old(self).wf(),
            old(self)@.sees_death(session, hp, save_view(*old(save)), now) && death_counts(
                session->0.options.death_link,
                bloodstain,
            ) ==> old(save)->0.deaths < u32::MAX,
        ensures
            final(self).wf(),
            ({
                let start = save_view(*old(save));
                let options = session->0.options;
                let deaths = start->0.deaths + 1;
                if !old(self)@.sees_death(session, hp, start, now) {
                    &&& step is Idle
                    &&& *final(save) == *old(save)
                    &&& *final(self) == *old(self)
                } else if !death_counts(options.death_link, bloodstain) {
                    &&& step is Idle
                    &&& *final(save) == *old(save)
                    &&& final(self)@ == (CoreView { last_death_link: now, ..old(self)@ })
                } else {
                    &&& save_view(*final(save)) == Some(
                        SaveDataView { deaths: deaths as u32, ..start->0 },
                    )
                    &&& if death_sends(start->0.deaths as nat, options.death_link_amnesty) {
                        step is Send && *final(self) == *old(self)
                    } else {
                        step is Idle && final(self)@ == (CoreView {
                            base: old(self)@.base.logged(
                                PrintView::of_text(
                                    amnesty_text((options.death_link_amnesty - deaths) as nat),
                                ),
                            ),
                            last_death_link: now,
                            ..old(self)@
                        })
                    }
                }
            }),
            (final(self)@, save_view(*final(save)), step) == old(self)@.died(
                session,
                hp,
                bloodstain,
                save_view(*old(save)),
                now,
            ),
    {
        if !self.allow_death_link(session, now) {
            return DeathLinkStep::Idle;
        }
        let died: bool = match hp {
            Some(hp) => hp == 0,
            None => false,
        };
        if !died {
            return DeathLinkStep::Idle;
        }
        match (session, save) {
            (Some(session), Some(data)) => {
                let options: Options = session.options;
                if options.death_link != DeathLinkOption::LostSouls || bloodstain {
                    data.deaths = data.deaths + 1;
                    if data.deaths >= options.death_link_amnesty {
                        return DeathLinkStep::Send;
                    }
                    let text: String = amnesty_message(options.death_link_amnesty - data.deaths);
                    self.base.log(Print::message(text));
                }
                self.last_death_link = now;
                DeathLinkStep::Idle
            },
            _ => DeathLinkStep::Idle,
        }
    }

    /// Takes note that a death link was sent.
    pub fn death_link_sent(&mut self, save: &mut Option<SaveData>, now: u64)
        requires
            old(self).wf(),
        ensures
            final(self).wf(),
            save_view(*final(save)) == (match save_view(*old(save)) {
                Some(save) => Some(SaveDataView { deaths: 0, ..save }),
                None => None,
            }),
            final(self)@ == (CoreView {
                base: old(self)@.base.logged(
                    PrintView::of_text("You have sent a death link to your teammates."@),
                ),
                last_death_link: now,
                ..old(self)@
            }),
            (final(self)@, save_view(*final(save))) == old(self)@.link_sent(
                save_view(*old(save)),
                now,
            ),
    {
        if let Some(data) = save {
            data.deaths = 0;
        }
        self.base.log(Print::message("You have sent a death link to your teammates.".to_owned()));
        self.last_death_link = now;
    }

    /// Decides whether to tell the server that the player has won the game.
    /// `flags` holds the values of the event flags that make up the goal, if
    /// the game has its flags loaded.
    pub fn handle_goal(&self, flags: Option<&Vec<bool>>, connected: bool) -> (reached: bool)
        ensures
            reached == self@.owes_goal(
                match flags {
                    Some(flags) => Some(flags@),
                    None => None,
                },
                connected,
            ),
    {
        match flags {
            Some(flags) => connected && !self.sent_goal && all_set(flags),
            None => false,
        }
    }

    /// Takes note that the server was told that the player has won.
    pub fn goal_sent(&mut self)
        ensures
            final(self)@ == (CoreView { sent_goal: true, ..old(self)@ }),
            final(self)@ == old(self)@.goal_told(),
            final(self).wf() == old(self).wf(),
    {
        self.sent_goal = true;
    }
}

/// Whether every event flag that makes up a goal is set.
pub open spec fn goal_reached(flags: Seq<bool>) -> bool {
    forall|i: int| 0 <= i < flags.len() ==> #[trigger] flags[i]
}

fn all_set(flags: &Vec<bool>) -> (all: bool)
    ensures
        all == goal_reached(flags@),
{
    let mut i: usize = 0;
    while i < flags.len()
        invariant
            i <= flags@.len(),
            forall|j: int| 0 <= j < i ==> #[trigger] flags@[j],
        decreases flags@.len() - i,
    {
        if !flags[i] {
            assert(!flags@[i as int]);
            return false;
        }
        i = i + 1;
    }
    true
}

/// The message that tells the player how many deaths remain until the next
/// death link.
fn amnesty_message(remaining: u32) -> (text: String)
    ensures
        text@ == amnesty_text(remaining as nat),
{
    let start: String = "You have been granted death link amnesty. ".to_owned();
    if remaining == 1 {
        start.concat("1 death remains.")
    } else {
        let count: String = decimal(remaining).concat(" deaths remain.");
        start.concat(count.as_str())
    }
}

/// The error to raise for downloadable content that a seed expects.
pub open spec fn dlc_error(
    session: Option<&Session>,
    installed: Option<InstalledDlc>,
    in_game: bool,
) -> Option<CoreErrorView> {
    match (session, installed) {
        (Some(session), Some(dlc)) if in_game && session.options.enable_dlc => {
            if dlc.ashes_of_ariandel && dlc.ringed_city {
                None
            } else if dlc.ashes_of_ariandel {
                Some(CoreErrorView::MissingDlc(MissingDlc::RingedCity))
            } else if dlc.ringed_city {
                Some(CoreErrorView::MissingDlc(MissingDlc::AshesOfAriandel))
            } else {
                Some(CoreErrorView::MissingDlc(MissingDlc::Both))
            }
        },
        _ => None,
    }
}

} // verus!
