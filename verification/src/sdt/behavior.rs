//! What each operation of the client for Sekiro does, in terms of what it is
//! given.

use vstd::prelude::*;

use crate::client::{live_rank, Core as SharedCore, LiveStep};
use crate::inventory::{locations_with, InventoryAction, InventoryItem};
use crate::items::{
    law_granted_item_is_new, law_item_is_handed_over, ItemStack, ItemTable, ReceivedItem,
    SaveDataView,
};
use crate::overlay::{line_step, say_step};
use crate::sdt::{can_grant, sdt_step_after, without_icon, Core, CoreView};

verus! {

/// Whether the player can be granted an item now is a matter of four things and
/// no others.
pub proof fn law_when_items_are_granted(
    connected: bool,
    ready: bool,
    save: Option<SaveDataView>,
    last_item_time: u64,
    now: u64,
)
    ensures
        connected && ready && save is Some && now >= last_item_time + 1_000_000_000 ==> can_grant(
            connected,
            ready,
            save,
            last_item_time,
            now,
        ),
        can_grant(connected, ready, save, last_item_time, now) ==> connected && ready && save
            is Some && now >= last_item_time + 1_000_000_000,
{
}

/// If a second has passed, the player gets the first item of the list that the
/// save does not count as granted: the game's item for it, as many as the table
/// says and otherwise one. It then counts as granted, and the next one has to
/// wait for a second.
pub proof fn law_next_item_is_granted(
    core: CoreView,
    received: Seq<ReceivedItem>,
    table: ItemTable,
    save: SaveDataView,
    now: u64,
    i: int,
)
    requires
        now >= core.last_item_time + 1_000_000_000,
        0 <= i < received.len() <= usize::MAX,
        received[i].index >= save.items_granted,
        forall|j: int| 0 <= j < i ==> (#[trigger] received[j]).index < save.items_granted,
        save.items_granted < usize::MAX,
    ensures
        ({
            let (after, kept, granted) = core.after_incoming(
                Some(received),
                table,
                true,
                Some(save),
                now,
            );
            let id = received[i].id;
            let (index, stack) = granted->0;
            &&& granted is Some
            &&& index == i
            &&& stack.id == table.item_ids@[id]
            &&& table.item_counts@.dom().contains(id) ==> stack.quantity == table.item_counts@[id]
            &&& !table.item_counts@.dom().contains(id) ==> stack.quantity == 1
            &&& kept is Some
            &&& kept->0.items_granted == save.items_granted + 1
            &&& kept->0.seed == save.seed
            &&& kept->0.locations == save.locations
            &&& kept->0.deaths == save.deaths
            &&& after == (CoreView { last_item_time: now, ..core })
        }),
{
    law_item_is_handed_over(received, table, save, i);
}

/// Where there is nothing to grant, nothing changes, but that a new file gets
/// its save data once the game is there.
pub proof fn law_nothing_is_granted(
    core: CoreView,
    received: Option<Seq<ReceivedItem>>,
    table: ItemTable,
    ready: bool,
    save: Option<SaveDataView>,
    now: u64,
)
    requires
        ({
            ||| received is None
            ||| !ready
            ||| save is None
            ||| now < core.last_item_time + 1_000_000_000
            ||| forall|j: int|
                0 <= j < received->0.len() ==> (#[trigger] received->0[j]).index
                    < save->0.items_granted
        }),
    ensures
        ({
            let (after, kept, granted) = core.after_incoming(received, table, ready, save, now);
            &&& granted is None
            &&& after == core
            &&& save is Some || received is None || !ready ==> kept == save
            &&& save is None && received is Some && ready ==> kept is Some
                && kept->0.seed is None && kept->0.items_granted == 0 && kept->0.locations
                == Set::<i64>::empty()
        }),
{
    if received is Some && ready && save is Some && now >= core.last_item_time + 1_000_000_000 {
        law_granted_item_is_new(received->0, save->0.items_granted);
    }
}

/// A placeholder for an item of this world is exchanged for exactly that item,
/// whatever its icon, and one for another world's item is taken out. Anything
/// else is left alone. No gesture is ever given.
pub proof fn law_what_becomes_of_an_item(
    core: CoreView,
    items: Seq<InventoryItem>,
    done: usize,
    connected: bool,
    save: SaveDataView,
    location: i64,
)
    requires
        done < items.len(),
    ensures
        ({
            let (actions, report, kept) = core.after_item(items, done, true, connected, Some(save));
            let item = items[done as int];
            let removal = InventoryAction::RemoveItem {
                stack: ItemStack { id: item.id, quantity: 1 },
            };
            &&& actions is Some
            &&& !report
            &&& item.row is None ==> actions->0.len() == 0
            &&& item.row is Some && item.row->0.item is Some ==> actions->0 == seq![
                InventoryAction::GiveItem { stack: item.row->0.item->0 },
                removal,
            ]
            &&& item.row is Some && item.row->0.item is None ==> actions->0 == seq![removal]
            &&& kept is Some
            &&& kept->0.locations.contains(location) <==> save.locations.contains(location) || (
            item.row is Some && item.row->0.location == location)
            &&& kept->0.seed == save.seed
            &&& kept->0.items_granted == save.items_granted
            &&& kept->0.deaths == save.deaths
        }),
{
    let item = without_icon(items[done as int]);
    reveal_with_fuel(locations_with, 2);
    assert(seq![item].drop_last() =~= Seq::<InventoryItem>::empty());
    let (actions, _, _) = core.after_item(items, done, true, connected, Some(save));
    if item.row is Some && item.row->0.item is Some {
        assert(actions->0 =~= seq![
            InventoryAction::GiveItem { stack: item.row->0.item->0 },
            InventoryAction::RemoveItem { stack: ItemStack { id: item.id, quantity: 1 } },
        ]);
    } else if item.row is Some {
        assert(actions->0 =~= seq![
            InventoryAction::RemoveItem { stack: ItemStack { id: item.id, quantity: 1 } },
        ]);
    }
}

/// Once all items were dealt with, the server is told exactly if it can be and
/// knows of fewer locations than the save has. Nothing is done without a game or
/// a save.
pub proof fn law_when_the_inventory_is_done(
    core: CoreView,
    items: Seq<InventoryItem>,
    done: usize,
    connected: bool,
    save: SaveDataView,
)
    ensures
        done >= items.len() ==> {
            let (actions, report, kept) = core.after_item(items, done, true, connected, Some(save));
            &&& actions is None
            &&& report <==> connected && save.locations.len() > core.locations_sent
            &&& kept == Some(save)
        },
        ({
            let (actions, report, kept) = core.after_item(
                items,
                done,
                false,
                connected,
                Some(save),
            );
            actions is None && !report && kept == Some(save)
        }),
        ({
            let (actions, report, kept) = core.after_item(items, done, true, connected, None);
            actions is None && !report && kept is None
        }),
{
}

/// Once the server was told, it is owed nothing for the locations of that save,
/// and the client is otherwise the same.
pub proof fn law_reported_client(core: CoreView, save: SaveDataView)
    requires
        save.locations.len() <= usize::MAX,
    ensures
        core.reported(Some(save)).locations_sent == save.locations.len(),
        (CoreView { locations_sent: core.locations_sent, ..core.reported(Some(save)) }) == core,
        core.reported(None) == core,
{
}

/// This game has no commands: every line that the player enters goes to the
/// server, and leaves the client as it is.
pub proof fn law_every_line_goes_to_the_server(
    core: Core,
    message: Seq<char>,
    command: Seq<char>,
    arg: Option<Seq<char>>,
)
    ensures
        say_step(line_step(core, message)) is SendToServer,
        core.command_base(command, arg) == core.spec_base()@,
{
    core.law_shared_part(core.spec_base());
}

/// Nothing is forgotten when the game is unloaded.
pub proof fn law_unloading_changes_nothing(core: Core, after: Core)
    requires
        core.unloaded(after),
    ensures
        after == core,
{
}

/// A frame's logic leaves no step out but those that this game has nothing to do
/// for: content, deaths, shops and goals.
pub proof fn law_no_step_is_left_out(step: LiveStep, between: LiveStep)
    requires
        !(step is CheckDlc || step is SendDeathLink || step is ShopHints || step is Goal),
    ensures
        live_rank(step) < live_rank(between) < live_rank(sdt_step_after(step)) ==> {
            ||| between is CheckDlc
            ||| between is SendDeathLink
            ||| between is ShopHints
            ||| between is Goal
        },
        !(sdt_step_after(step) is CheckDlc || sdt_step_after(step) is SendDeathLink
            || sdt_step_after(step) is ShopHints || sdt_step_after(step) is Goal),
{
}

} // verus!
