//! The client for Sekiro.

use vstd::prelude::*;

use crate::client::{live_rank, CommandStep, Core as SharedCore, LiveStep};
use crate::clock::{elapsed, spec_elapsed, SECOND};
use crate::config::Config;
use crate::core_base::{CoreBase, CoreBaseView};
use crate::error::CoreError;
use crate::game::GameType;
use crate::inventory::{
    item_actions, locations_with, owes_report, process_item, should_report, InventoryAction,
    InventoryItem, PlaceholderRow,
};
use crate::items::{
    check_seed_conflict, incoming, next_item, save_seed, save_view, seed_conflict, take_next_item,
    with_seed, ItemStack, ItemTable, ReceivedItem, SaveData, SaveDataView,
};
use crate::log_buffer::LogView;

pub mod behavior;

verus! {

broadcast use vstd::std_specs::hash::group_hash_axioms;

/// How the game announces an item that the player gets.
#[derive(Clone, Copy, Debug, PartialEq, Eq, Structural)]
pub struct NoticeFlags {
    /// Whether the item is listed in the log.
    pub notice_log: bool,
    /// Whether a dialog pops up for the item.
    pub notice_dialog: bool,
}

/// Sets an item's `notice_log` and `notice_dialog` flags, which control how
/// it's displayed, to the given values and returns the previous values.
pub fn set_notice(row: &mut NoticeFlags, notice_log: bool, notice_dialog: bool) -> (previous: (
    bool,
    bool,
))
    ensures
        previous == (old(row).notice_log, old(row).notice_dialog),
        *final(row) == (NoticeFlags { notice_log, notice_dialog }),
{
    let previous: (bool, bool) = (row.notice_log, row.notice_dialog);
    row.notice_log = notice_log;
    row.notice_dialog = notice_dialog;
    previous
}

/// The flags to put back once an item has been given without notice.
#[derive(Clone, Copy, Debug, PartialEq, Eq, Structural)]
pub struct QuietGrant {
    pub previous: NoticeFlags,
}

impl QuietGrant {
    /// What is to be remembered of an item that is silenced.
    pub open spec fn of(row: NoticeFlags) -> QuietGrant {
        QuietGrant { previous: row }
    }

    /// The flags that the item has once the grant is over.
    pub open spec fn restored(self) -> NoticeFlags {
        self.previous
    }

    /// Silences an item, so that it can be given without popping up a
    /// notification on screen.
    pub fn begin(row: &mut NoticeFlags) -> (quiet: QuietGrant)
        ensures
            quiet == QuietGrant::of(*old(row)),
            *final(row) == (NoticeFlags { notice_log: false, notice_dialog: false }),
    {
        let (notice_log, notice_dialog): (bool, bool) = set_notice(row, false, false);
        QuietGrant { previous: NoticeFlags { notice_log, notice_dialog } }
    }

    /// Gives the item the flags back that it had before it was silenced.
    pub fn finish(self, row: &mut NoticeFlags)
        ensures
            *final(row) == self.restored(),
    {
        set_notice(row, self.previous.notice_log, self.previous.notice_dialog);
    }
}

/// What to do about the player's inventory next.
#[derive(Debug)]
pub enum InventoryStep {
    /// Do this in the game, in order, and go on with the item after it.
    Act(Vec<InventoryAction>),
    /// Tell the server of the visited locations.
    Report,
    /// Nothing is left to do.
    Finished,
}

/// An item of the inventory as far as this game is concerned, which has no
/// gestures to give.
pub open spec fn without_icon(item: InventoryItem) -> InventoryItem {
    InventoryItem {
        row: match item.row {
            Some(row) => Some(PlaceholderRow { goods_icon: None, ..row }),
            None => None,
        },
        ..item
    }
}

/// The client for Sekiro.
#[derive(Debug)]
pub struct Core {
    base: CoreBase,
    last_item_time: u64,
    locations_sent: usize,
}

/// The mathematical form of [Core].
pub struct CoreView {
    /// The part that every game shares.
    pub base: CoreBaseView,
    /// The time when the player was last granted an item.
    pub last_item_time: u64,
    /// The number of locations that the server was told of in this session.
    pub locations_sent: usize,
}

impl View for Core {
    type V = CoreView;

    closed spec fn view(&self) -> CoreView {
        CoreView {
            base: self.base@,
            last_item_time: self.last_item_time,
            locations_sent: self.locations_sent,
        }
    }
}

impl CoreView {
    /// The client, the save and what the player gets once the items that the
    /// server has sent were looked at.
    pub open spec fn after_incoming(
        self,
        received: Option<Seq<ReceivedItem>>,
        table: ItemTable,
        ready: bool,
        save: Option<SaveDataView>,
        now: u64,
    ) -> (CoreView, Option<SaveDataView>, Option<(usize, ItemStack)>) {
        let waited = can_grant(received is Some, ready, save, self.last_item_time, now);
        let (after, taken) = incoming(received, table, ready, save, waited);
        (
            CoreView {
                last_item_time: if taken is Some {
                    now
                } else {
                    self.last_item_time
                },
                ..self
            },
            after,
            taken,
        )
    }

    /// The client once the server was told of the locations of a save.
    pub open spec fn reported(self, save: Option<SaveDataView>) -> CoreView {
        CoreView {
            locations_sent: match save {
                Some(save) => save.locations.len() as usize,
                None => self.locations_sent,
            },
            ..self
        }
    }

    /// What is to be done in the game about the next item of the inventory, if
    /// there is one left, whether the server is to be told of the visited
    /// locations instead, and the save after that.
    pub open spec fn after_item(
        self,
        items: Seq<InventoryItem>,
        done: usize,
        ready: bool,
        connected: bool,
        save: Option<SaveDataView>,
    ) -> (Option<Seq<InventoryAction>>, bool, Option<SaveDataView>) {
        match save {
            Some(data) if ready && done < items.len() => {
                let item = without_icon(items[done as int]);
                (
                    Some(item_actions(item)),
                    false,
                    Some(
                        SaveDataView {
                            locations: locations_with(data.locations, seq![item]),
                            ..data
                        },
                    ),
                )
            },
            _ => (None, ready && owes_report(save, self.locations_sent, connected), save),
        }
    }
}

/// The order in which this game's own logic runs.
pub open spec fn sdt_step_after(step: LiveStep) -> LiveStep {
    match step {
        LiveStep::Start => LiveStep::CheckSeed,
        LiveStep::CheckSeed => LiveStep::Events,
        LiveStep::Events => LiveStep::IncomingItems,
        LiveStep::IncomingItems => LiveStep::InventoryItems,
        _ => LiveStep::Finished,
    }
}

impl SharedCore for Core {
    closed spec fn spec_base(self) -> CoreBase {
        self.base
    }

    closed spec fn with_base(self, base: CoreBase) -> Core {
        Core { base, ..self }
    }

    fn base(&self) -> (base: &CoreBase) {
        &self.base
    }

    fn base_mut(&mut self) -> (base: &mut CoreBase) {
        &mut self.base
    }

    open spec fn unloaded(self, after: Core) -> bool {
        after == self
    }

    fn unload(&mut self) {
    }

    open spec fn step_after(step: LiveStep) -> LiveStep {
        sdt_step_after(step)
    }

    fn next_step(step: LiveStep) -> (next: LiveStep) {
        match step {
            LiveStep::Start => LiveStep::CheckSeed,
            LiveStep::CheckSeed => LiveStep::Events,
            LiveStep::Events => LiveStep::IncomingItems,
            LiveStep::IncomingItems => LiveStep::InventoryItems,
            _ => LiveStep::Finished,
        }
    }

    open spec fn command_step(self, command: Seq<char>, arg: Option<Seq<char>>) -> CommandStep {
        CommandStep::Unhandled
    }

    open spec fn command_base(self, command: Seq<char>, arg: Option<Seq<char>>) -> CoreBaseView {
        self@.base
    }

    fn handle_command(&mut self, command: &str, arg: Option<&str>) -> (step: CommandStep) {
        CommandStep::Unhandled
    }
}

/// Whether the player can be granted an item now: there must be a connection,
/// a game and a save, and it must be a second since the last one.
pub open spec fn can_grant(
    connected: bool,
    ready: bool,
    save: Option<SaveDataView>,
    last_item_time: u64,
    now: u64,
) -> bool {
    connected && ready && save is Some && spec_elapsed(last_item_time, now) >= SECOND
}

impl Core {
    /// A client is well-formed if its shared part is.
    pub open spec fn wf(self) -> bool {
        self.spec_base().wf()
    }

    /// The shared part of a client is the one that its mathematical form shows,
    /// and replacing it leaves everything else alone.
    pub proof fn law_shared_part(self, base: CoreBase)
        ensures
            self.spec_base()@ == self@.base,
            self.with_base(base)@ == (CoreView { base: base@, ..self@ }),
            self.with_base(base).spec_base() == base,
    {
    }

    /// Creates a client whose session starts at `now`.
    pub fn new(config: Config, now: u64) -> (core: Core)
        ensures
            core.wf(),
            core@ == (CoreView {
                base: CoreBaseView {
                    game: GameType::Sekiro.spec_world_name(),
                    config: config@,
                    logs: LogView::empty(),
                    events: Seq::empty(),
                    load_time: None,
                    error: None,
                },
                last_item_time: now,
                locations_sent: 0,
            }),
    {
        let game: String = GameType::Sekiro.world_name().to_owned();
        Core { base: CoreBase::new(game, config), last_item_time: now, locations_sent: 0 }
    }

    /// Returns an error if the seeds of the server's room, the save and the
    /// configuration are not all the same. If they are, and the save has none
    /// yet, it is given that of the configuration.
    pub fn check_seed_conflict(
        &self,
        room: Option<&str>,
        save: &mut Option<SaveData>,
    ) -> (checked: Result<(), CoreError>)
        ensures
            ({
                let room_seed = match room {
                    Some(room) => Some(room@),
                    None => None,
                };
                let conflict = seed_conflict(
                    GameType::Sekiro,
                    room_seed,
                    self@.base.config.seed,
                    save_seed(save_view(*old(save))),
                );
                match checked {
                    Ok(()) => conflict is None && save_view(*final(save)) == with_seed(
                        save_view(*old(save)),
                        self@.base.config.seed,
                    ),
                    Err(error) => conflict == Some(error@) && *final(save) == *old(save),
                }
            }),
    {
        check_seed_conflict(GameType::Sekiro, room, self.base.config().seed(), save)
    }

    /// Whether the player can be granted an item now. `received` is what the
    /// open connection has sent, and `ready` says whether the game can take an
    /// item.
    pub fn may_grant(
        &self,
        received: Option<&Vec<ReceivedItem>>,
        ready: bool,
        save: &Option<SaveData>,
        now: u64,
    ) -> (may: bool)
        ensures
            may == can_grant(
                received is Some,
                ready,
                save_view(*save),
                self@.last_item_time,
                now,
            ),
    {
        received.is_some() && ready && save.is_some() && elapsed(self.last_item_time, now)
            >= SECOND
    }

    /// Hands the next new item to the player when appropriate. `received` is
    /// what the open connection has sent, and `ready` says whether the game
    /// can take an item. This also initializes the save data for a new file.
    ///
    /// The item is returned with its position in `received`.
    pub fn process_incoming_items(
        &mut self,
        received: Option<&Vec<ReceivedItem>>,
        table: &ItemTable,
        ready: bool,
        save: &mut Option<SaveData>,
        now: u64,
    ) -> (granted: Option<(usize, ItemStack)>)
        requires
            can_grant(
                received is Some,
                ready,
                save_view(*old(save)),
                old(self)@.last_item_time,
                now,
            ) ==> {
                &&& old(save)->0.items_granted < usize::MAX
                &&& table.knows_next(received->0@, old(save)->0.items_granted)
            },
        ensures
            ({
                let start = save_view(*old(save));
                let next = next_item(received->0@, start->0.items_granted, 0);
                if can_grant(received is Some, ready, start, old(self)@.last_item_time, now)
                    && next < received->0@.len() {
                    &&& granted == Some(
                        (next as usize, table.spec_resolve(received->0@[next].id)),
                    )
                    &&& save_view(*final(save)) == Some(
                        SaveDataView {
                            items_granted: (start->0.items_granted + 1) as usize,
                            ..start->0
                        },
                    )
                    &&& final(self)@ == (CoreView { last_item_time: now, ..old(self)@ })
                } else {
                    &&& granted is None
                    &&& if received is Some && ready && start is None {
                        save_view(*final(save)) == Some(SaveDataView::initial())
                    } else {
                        *final(save) == *old(save)
                    }
                    &&& *final(self) == *old(self)
                }
            }),
            (final(self)@, save_view(*final(save)), granted) == old(self)@.after_incoming(
                match received {
                    Some(received) => Some(received@),
                    None => None,
                },
                *table,
                ready,
                save_view(*old(save)),
                now,
            ),
            final(self).wf() == old(self).wf(),
    {
        if !self.may_grant(received, ready, save, now) {
            if received.is_some() && ready && save.is_none() {
                *save = Some(SaveData::new());
            }
            return None;
        }
        match (received, save) {
            (Some(received), Some(data)) => {
                match take_next_item(data, received, table) {
                    Some((next, stack)) => {
                        self.last_item_time = now;
                        Some((next, stack))
                    },
                    None => None,
                }
            },
            _ => None,
        }
    }

    /// Decides what becomes of the placeholders in the player's inventory, one
    /// item after another, and in the end whether the server is to be told
    /// that they've been accessed. `done` is the number of items that have been
    /// dealt with, and `ready` says whether the game's inventory and tables
    /// are available.
    pub fn process_inventory_items(
        &self,
        items: &Vec<InventoryItem>,
        done: usize,
        ready: bool,
        connected: bool,
        save: &mut Option<SaveData>,
    ) -> (step: InventoryStep)
        ensures
            ({
                let start = save_view(*old(save));
                if ready && start is Some && done < items@.len() {
                    let item = without_icon(items@[done as int]);
                    &&& step matches InventoryStep::Act(actions) && actions@ == item_actions(item)
                    &&& save_view(*final(save)) == Some(
                        SaveDataView {
                            locations: locations_with(start->0.locations, seq![item]),
                            ..start->0
                        },
                    )
                } else {
                    &&& *final(save) == *old(save)
                    &&& if ready && owes_report(start, self@.locations_sent, connected) {
                        step is Report
                    } else {
                        step is Finished
                    }
                }
            }),
            ({
                let (actions, report, kept) = self@.after_item(
                    items@,
                    done,
                    ready,
                    connected,
                    save_view(*old(save)),
                );
                &&& save_view(*final(save)) == kept
                &&& step is Report == report
                &&& match step {
                    InventoryStep::Act(done) => actions == Some(done@),
                    _ => actions is None,
                }
            }),
    {
        if !ready {
            return InventoryStep::Finished;
        }
        if let Some(data) = save {
            if done < items.len() {
                let mut item: InventoryItem = items[done];
                if let Some(row) = item.row {
                    item.row = Some(
                        PlaceholderRow {
                            location: row.location,
                            goods_icon: None,
                            item: row.item,
                        },
                    );
                }
                let mut actions: Vec<InventoryAction> = Vec::new();
                process_item(data, &item, &mut actions);
                assert(actions@ =~= item_actions(item));
                return InventoryStep::Act(actions);
            }
        }
        if should_report(save, self.locations_sent, connected) {
            InventoryStep::Report
        } else {
            InventoryStep::Finished
        }
    }

    /// Takes note that the server was told of the visited locations.
    pub fn locations_reported(&mut self, save: &Option<SaveData>)
        ensures
            final(self)@ == (CoreView {
                locations_sent: match save_view(*save) {
                    Some(save) => save.locations.len() as usize,
                    None => old(self)@.locations_sent,
                },
                ..old(self)@
            }),
            final(self)@ == old(self)@.reported(save_view(*save)),
            final(self).wf() == old(self).wf(),
    {
        if let Some(data) = save {
            self.locations_sent = data.locations.len();
        }
    }
}

/// An item is announced again as before once it was given without notice.
pub proof fn law_quiet_grant_leaves_no_trace(row: NoticeFlags)
    ensures
        QuietGrant::of(row).restored() == row,
{
}

/// Dealing with the inventory item by item visits the same locations as
/// dealing with it at once.
pub proof fn law_locations_add_up(
    locations: Set<i64>,
    items: Seq<InventoryItem>,
    item: InventoryItem,
)
    ensures
        locations_with(locations_with(locations, items), seq![item]) == locations_with(
            locations,
            items.push(item),
        ),
{
    reveal_with_fuel(locations_with, 2);
    assert(seq![item].drop_last() =~= Seq::<InventoryItem>::empty());
    assert(items.push(item).drop_last() =~= items);
}

/// At most one item is granted per second.
pub proof fn law_one_item_per_second(
    core: CoreView,
    connected: bool,
    ready: bool,
    save: Option<SaveDataView>,
    granted_at: u64,
    now: u64,
)
    requires
        now < granted_at + SECOND,
    ensures
        !can_grant(
            connected,
            ready,
            save,
            (CoreView { last_item_time: granted_at, ..core }).last_item_time,
            now,
        ),
{
}

/// A frame's logic comes to an end: each step is followed by a later one.
pub proof fn law_live_update_ends(step: LiveStep)
    requires
        step != LiveStep::Finished,
    ensures
        live_rank(sdt_step_after(step)) > live_rank(step),
{
}

} // verus!
