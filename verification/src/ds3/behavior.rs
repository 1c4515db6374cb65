//! What each operation of the client for Dark Souls III does, in terms of what
//! it is given.

use vstd::prelude::*;

use crate::client::{live_rank, CommandStep, Core as SharedCore, EventRequest, LiveStep};
use crate::clock::WallTime;
use crate::command::{flag_and_value, law_command_is_read, spaces};
use crate::core_base::{CoreBaseView, EventView};
use crate::ds3::{
    access_print, amnesty_text, can_grant, command_error, command_outcome, death_counts, dlc_error,
    ds3_step_after, grant_for, hinted_with, invalid_flag_print, is_flag, new_hints, usage_print,
    Core, CoreView, DeathLinkOption, DeathLinkStep, FlagAccess, Grant, InstalledDlc, Session,
    ShopItem,
};
use crate::ds3::laws::law_hinted_items;
use crate::error::{CoreErrorView, MissingDlc};
use crate::inventory::{
    law_items_are_given, law_locations_are_those_found, occurrences, InventoryAction, InventoryItem,
};
use crate::items::{
    law_granted_item_is_new, law_item_is_handed_over, ItemStack, ItemTable, ReceivedItem,
    SaveDataView,
};
use crate::log_buffer::{LineView, LogSource};
use crate::overlay::{line_step, say_step, SayStep};
use crate::print::{law_text_of_parts, PrintKindView, RichTextView, TextColor};
use crate::text::{bool_text, decimal_text, is_white_space, law_what_is_no_number, u32_of_text};

verus! {

/// The identifier of the good that stands for the Path of the Dragon gesture.
pub const DRAGON_GOOD: u32 = 0x4000_2346;

/// An item is handed over as exactly the item it is, in exactly its quantity,
/// whatever its category. Only the good for Path of the Dragon is handed over
/// as a gesture.
pub proof fn law_grant_keeps_item_and_quantity(stack: ItemStack)
    ensures
        DRAGON_GOOD == 4 * 0x1000_0000 + 9030,
        stack.id != DRAGON_GOOD ==> (grant_for(stack) matches Grant::Item {
            stack: granted,
            durability,
        } && granted.id == stack.id && granted.quantity == stack.quantity && durability == -1),
        stack.id == DRAGON_GOOD ==> (grant_for(stack) matches Grant::Gesture { gesture, item }
            && gesture == 29 && item == stack.id),
{
}

/// Two different stacks are never handed over alike, unless both are Path of
/// the Dragon, which one has or has not.
pub proof fn law_grants_tell_items_apart(a: ItemStack, b: ItemStack)
    requires
        grant_for(a) == grant_for(b),
    ensures
        a.id == b.id,
        a.id != DRAGON_GOOD ==> a.quantity == b.quantity,
{
}

/// Whether the player can be granted an item now is a matter of four things and
/// no others.
pub proof fn law_when_items_are_granted(
    connected: bool,
    ready: bool,
    save: Option<SaveDataView>,
    last_item_time: u64,
    now: u64,
)
    ensures
        connected && ready && save is Some && now >= last_item_time + 1_000_000_000 ==> can_grant(
            connected,
            ready,
            save,
            last_item_time,
            now,
        ),
        can_grant(connected, ready, save, last_item_time, now) ==> connected && ready && save
            is Some && now >= last_item_time + 1_000_000_000,
{
}

/// If a second has passed, the player gets the first item of the list that the
/// save does not count as granted: the game's item for it, as many as the table
/// says and otherwise one, or the gesture. It then counts as granted, and the
/// next one has to wait for a second.
pub proof fn law_next_item_is_granted(
    core: CoreView,
    received: Seq<ReceivedItem>,
    table: ItemTable,
    save: SaveDataView,
    now: u64,
    i: int,
)
    requires
        now >= core.last_item_time + 1_000_000_000,
        0 <= i < received.len() <= usize::MAX,
        received[i].index >= save.items_granted,
        forall|j: int| 0 <= j < i ==> (#[trigger] received[j]).index < save.items_granted,
        save.items_granted < usize::MAX,
    ensures
        ({
            let (after, kept, granted) = core.after_incoming(
                Some(received),
                table,
                true,
                Some(save),
                now,
            );
            let id = received[i].id;
            let (index, grant) = granted->0;
            &&& granted is Some
            &&& index == i
            &&& table.item_ids@[id] != DRAGON_GOOD ==> (grant matches Grant::Item {
                stack,
                durability,
            } && stack.id == table.item_ids@[id] && durability == -1 && stack.quantity == (
            if table.item_counts@.dom().contains(id) {
                table.item_counts@[id]
            } else {
                1u32
            }))
            &&& table.item_ids@[id] == DRAGON_GOOD ==> (grant matches Grant::Gesture {
                gesture,
                item,
            } && gesture == 29 && item == DRAGON_GOOD)
            &&& kept is Some
            &&& kept->0.items_granted == save.items_granted + 1
            &&& kept->0.seed == save.seed
            &&& kept->0.locations == save.locations
            &&& kept->0.deaths == save.deaths
            &&& after == (CoreView { last_item_time: now, ..core })
        }),
{
    law_item_is_handed_over(received, table, save, i);
}

/// Where there is nothing to grant, nothing changes, but that a new file gets
/// its save data once the game is there.
pub proof fn law_nothing_is_granted(
    core: CoreView,
    received: Option<Seq<ReceivedItem>>,
    table: ItemTable,
    ready: bool,
    save: Option<SaveDataView>,
    now: u64,
)
    requires
        ({
            ||| received is None
            ||| !ready
            ||| save is None
            ||| now < core.last_item_time + 1_000_000_000
            ||| forall|j: int|
                0 <= j < received->0.len() ==> (#[trigger] received->0[j]).index
                    < save->0.items_granted
        }),
    ensures
        ({
            let (after, kept, granted) = core.after_incoming(received, table, ready, save, now);
            &&& granted is None
            &&& after == core
            &&& save is Some || received is None || !ready ==> kept == save
            &&& save is None && received is Some && ready ==> kept is Some
                && kept->0.seed is None && kept->0.items_granted == 0 && kept->0.deaths == 0
                && kept->0.locations == Set::<i64>::empty()
        }),
{
    if received is Some && ready && save is Some && now >= core.last_item_time + 1_000_000_000 {
        law_granted_item_is_new(received->0, save->0.items_granted);
    }
}

/// A death link kills whenever death links are on at all, whichever way, the
/// grace period is over, someone else sent it, and they sent it a grace period
/// or more after the last one.
pub proof fn law_death_link_strikes(
    core: CoreView,
    source: Seq<char>,
    time: WallTime,
    session: &Session,
    now: u64,
    wall_now: WallTime,
)
    requires
        session.options.death_link is AnyDeath || session.options.death_link is LostSouls,
        now >= core.last_death_link + 30_000_000_000,
        source != session.player@,
        time.spec_total_nanos() - wall_now.spec_total_nanos() + (now - core.last_death_link)
            >= 30_000_000_000,
    ensures
        core.death_link_allowed(Some(session), now),
        core.death_link_strikes(source, time, Some(session), now, wall_now),
{
}

/// A death link that kills met all the conditions for it.
pub proof fn law_strike_has_its_reasons(
    core: CoreView,
    source: Seq<char>,
    time: WallTime,
    session: Option<&Session>,
    now: u64,
    wall_now: WallTime,
)
    requires
        core.death_link_strikes(source, time, session, now, wall_now),
    ensures
        session is Some,
        !(session->0.options.death_link is Off),
        now >= core.last_death_link + 30_000_000_000,
        source != session->0.player@,
        time.spec_total_nanos() - wall_now.spec_total_nanos() + (now - core.last_death_link)
            >= 30_000_000_000,
{
}

/// Receiving death links works the same under every option but off.
pub proof fn law_receiving_ignores_the_kind_of_link(
    core: CoreView,
    source: Seq<char>,
    time: WallTime,
    a: &Session,
    b: &Session,
    now: u64,
    wall_now: WallTime,
)
    requires
        a.player@ == b.player@,
        (a.options.death_link is Off) == (b.options.death_link is Off),
    ensures
        core.death_link_strikes(source, time, Some(a), now, wall_now) == core.death_link_strikes(
            source,
            time,
            Some(b),
            now,
            wall_now,
        ),
{
}

/// One death link that kills is enough, wherever it stands among the events.
pub proof fn law_any_strike_kills(
    core: CoreView,
    session: Option<&Session>,
    now: u64,
    wall_now: WallTime,
    i: int,
    source: Seq<char>,
    time: WallTime,
)
    requires
        0 <= i < core.base.events.len(),
        core.base.events[i] == (EventView::DeathLink { source, time }),
        core.death_link_strikes(source, time, session, now, wall_now),
    ensures
        core.processed(session, true, true, now, wall_now).1,
        core.processed(session, true, true, now, wall_now).0.last_death_link == now,
{
}

/// Where no event is a death link that kills, nobody dies and the grace period
/// does not start over.
pub proof fn law_no_strike_no_kill(
    core: CoreView,
    session: Option<&Session>,
    in_game: bool,
    player_loaded: bool,
    now: u64,
    wall_now: WallTime,
)
    requires
        !player_loaded || !in_game || forall|i: int, source: Seq<char>, time: WallTime|
            0 <= i < core.base.events.len() && #[trigger] core.base.events[i] == (
            EventView::DeathLink { source, time }) ==> !#[trigger] core.death_link_strikes(
                source,
                time,
                session,
                now,
                wall_now,
            ),
    ensures
        !core.processed(session, in_game, player_loaded, now, wall_now).1,
        core.processed(session, in_game, player_loaded, now, wall_now).0.last_death_link
            == core.last_death_link,
{
}

/// Events are dealt with once, and only in the game.
pub proof fn law_events_are_dealt_with_once(
    core: CoreView,
    session: Option<&Session>,
    player_loaded: bool,
    now: u64,
    wall_now: WallTime,
)
    ensures
        core.processed(session, true, player_loaded, now, wall_now).0.base.events.len() == 0,
        ({
            let after = core.processed(session, true, player_loaded, now, wall_now).0;
            let events = after.base.events;
            let last_death_link = after.last_death_link;
            after == (CoreView {
                base: CoreBaseView { events, ..core.base },
                last_death_link,
                ..core
            })
        }),
        core.processed(session, false, player_loaded, now, wall_now).0 == core,
{
}

/// With the option for any death, every death that is seen counts, whatever
/// lies on the ground. With the one for lost souls, exactly those do at which
/// souls lie there.
pub proof fn law_which_deaths_count(bloodstain: bool)
    ensures
        death_counts(DeathLinkOption::AnyDeath, bloodstain),
        death_counts(DeathLinkOption::LostSouls, bloodstain) == bloodstain,
{
}

/// A death that counts is counted in the save. It makes a death link if there
/// are now as many as the amnesty says, and otherwise the player is told how
/// many remain, and the grace period starts over.
pub proof fn law_death_is_counted(
    core: CoreView,
    session: &Session,
    bloodstain: bool,
    save: SaveDataView,
    now: u64,
)
    requires
        session.options.death_link is AnyDeath || (session.options.death_link is LostSouls
            && bloodstain),
        now >= core.last_death_link + 30_000_000_000,
        save.deaths < u32::MAX,
    ensures
        ({
            let (after, kept, step) = core.died(
                Some(session),
                Some(0i32),
                bloodstain,
                Some(save),
                now,
            );
            let amnesty = session.options.death_link_amnesty;
            &&& kept is Some
            &&& kept->0.deaths == save.deaths + 1
            &&& kept->0.seed == save.seed
            &&& kept->0.items_granted == save.items_granted
            &&& kept->0.locations == save.locations
            &&& step is Send <==> kept->0.deaths >= amnesty
            &&& step is Send ==> after == core
            &&& step is Idle ==> {
                let told = after.base.logs.messages.last();
                &&& after.last_death_link == now
                &&& after.base.logs.messages.len() > 0
                &&& told.kind == PrintKindView::Unknown
                &&& told.text() == "You have been granted death link amnesty. "@ + (
                if amnesty - kept->0.deaths == 1 {
                    "1 death remains."@
                } else {
                    decimal_text((amnesty - kept->0.deaths) as nat) + " deaths remain."@
                })
                &&& after == (CoreView { base: after.base, last_death_link: now, ..core })
                &&& after.base == (CoreBaseView { logs: after.base.logs, ..core.base })
            }
        }),
{
    let (after, kept, step) = core.died(Some(session), Some(0i32), bloodstain, Some(save), now);
    if step is Idle {
        let remaining = (session.options.death_link_amnesty - kept->0.deaths) as nat;
        let data = seq![RichTextView::Text(amnesty_text(remaining))];
        law_text_of_parts(Seq::empty(), data[0]);
        assert(Seq::<RichTextView>::empty().push(data[0]) =~= data);
        assert(after.base.logs.messages.last().data == data);
        assert(Seq::<char>::empty() + amnesty_text(remaining) =~= amnesty_text(remaining));
    }
}

/// With the option for lost souls, a death without souls on the ground is
/// neither counted nor sent. The grace period starts over all the same.
pub proof fn law_death_without_lost_souls(
    core: CoreView,
    session: &Session,
    save: SaveDataView,
    now: u64,
)
    requires
        session.options.death_link is LostSouls,
        now >= core.last_death_link + 30_000_000_000,
    ensures
        ({
            let (after, kept, step) = core.died(
                Some(session),
                Some(0i32),
                false,
                Some(save),
                now,
            );
            &&& step is Idle
            &&& kept == Some(save)
            &&& after == (CoreView { last_death_link: now, ..core })
        }),
{
}

/// Nothing happens where there is no death to deal with: off, in the grace
/// period, while the player lives, or without a save or a session.
pub proof fn law_no_death_to_deal_with(
    core: CoreView,
    session: Option<&Session>,
    hp: Option<i32>,
    bloodstain: bool,
    save: Option<SaveDataView>,
    now: u64,
)
    requires
        ({
            ||| session is None
            ||| session->0.options.death_link is Off
            ||| now < core.last_death_link + 30_000_000_000
            ||| hp is None
            ||| hp->0 != 0
            ||| save is None
        }),
    ensures
        core.died(session, hp, bloodstain, save, now) == (core, save, DeathLinkStep::Idle),
{
}

/// Once a death link was sent, deaths are counted from the start, the player is
/// told, and the grace period starts over.
pub proof fn law_sent_link_starts_over(core: CoreView, save: Option<SaveDataView>, now: u64)
    ensures
        ({
            let (after, kept) = core.link_sent(save, now);
            &&& after.last_death_link == now
            &&& after.base.logs.emitted != core.base.logs.emitted
            &&& after.base.logs.messages.last().text()
                == "You have sent a death link to your teammates."@
            &&& after == (CoreView { base: after.base, last_death_link: now, ..core })
            &&& after.base == (CoreBaseView { logs: after.base.logs, ..core.base })
            &&& save is None ==> kept is None
            &&& save is Some ==> kept is Some && kept->0.deaths == 0
                && kept->0.items_granted == save->0.items_granted && kept->0.seed == save->0.seed
                && kept->0.locations == save->0.locations
        }),
{
    let text = "You have sent a death link to your teammates."@;
    let data = seq![RichTextView::Text(text)];
    law_text_of_parts(Seq::empty(), data[0]);
    assert(Seq::<RichTextView>::empty().push(data[0]) =~= data);
    assert(Seq::<char>::empty() + text =~= text);
    assert(core.link_sent(save, now).0.base.logs.messages.last().data == data);
}

/// The server is not told of the goal while any of its flags is not set,
/// wherever it stands.
pub proof fn law_goal_needs_every_flag(core: CoreView, flags: Seq<bool>, connected: bool, i: int)
    requires
        0 <= i < flags.len(),
        !flags[i],
    ensures
        !core.owes_goal(Some(flags), connected),
{
}

/// Once all flags of the goal are set, the server is told, if it can be and was
/// not before.
pub proof fn law_goal_is_told(core: CoreView, flags: Seq<bool>)
    requires
        forall|i: int| 0 <= i < flags.len() ==> #[trigger] flags[i],
    ensures
        core.owes_goal(Some(flags), true) == !core.sent_goal,
        !core.owes_goal(Some(flags), false),
        !core.owes_goal(None, true),
        !core.goal_told().owes_goal(Some(flags), true),
        (CoreView { sent_goal: core.sent_goal, ..core.goal_told() }) == core,
{
}

/// One item on sale is hinted exactly if it is a placeholder that was not
/// hinted before.
pub proof fn law_one_item_on_sale(hinted: Set<u32>, item: ShopItem)
    ensures
        item.location is Some && !hinted.contains(item.id) ==> new_hints(hinted, seq![item])
            == seq![item.location->0],
        item.location is None || hinted.contains(item.id) ==> new_hints(hinted, seq![item])
            == Seq::<i64>::empty(),
        item.location is Some ==> hinted_with(hinted, seq![item]) == hinted.insert(item.id),
        item.location is None ==> hinted_with(hinted, seq![item]) == hinted,
{
    reveal_with_fuel(new_hints, 2);
    reveal_with_fuel(hinted_with, 2);
    assert(seq![item].drop_last() =~= Seq::<ShopItem>::empty());
    assert(Seq::<i64>::empty().push(item.location->0) =~= seq![item.location->0]);
}

/// A shop is hinted item by item, in order: what the first part of it has to
/// hint comes first, and counts as hinted for the rest.
pub proof fn law_shop_is_hinted_in_order(hinted: Set<u32>, a: Seq<ShopItem>, b: Seq<ShopItem>)
    ensures
        new_hints(hinted, a + b) == new_hints(hinted, a) + new_hints(hinted_with(hinted, a), b),
        hinted_with(hinted, a + b) == hinted_with(hinted_with(hinted, a), b),
    decreases b.len(),
{
    if b.len() == 0 {
        assert(a + b =~= a);
        assert(new_hints(hinted, a) + Seq::<i64>::empty() =~= new_hints(hinted, a));
    } else {
        law_shop_is_hinted_in_order(hinted, a, b.drop_last());
        assert((a + b).drop_last() =~= a + b.drop_last());
        assert((a + b).last() == b.last());
        assert(new_hints(hinted, a + b) =~= new_hints(hinted, a) + new_hints(
            hinted_with(hinted, a),
            b,
        ));
    }
}

/// Hints that were sent are remembered until the game is unloaded, and nothing
/// else changes.
pub proof fn law_hints_are_remembered(core: CoreView, items: Seq<ShopItem>, i: int)
    requires
        0 <= i < items.len(),
        items[i].location is Some,
    ensures
        core.hinted(items).shop_items_hinted.contains(items[i].id),
        core.shop_items_hinted.subset_of(core.hinted(items).shop_items_hinted),
        (CoreView { shop_items_hinted: core.shop_items_hinted, ..core.hinted(items) }) == core,
        core.unloaded().shop_items_hinted.len() == 0,
        (CoreView { shop_items_hinted: core.shop_items_hinted, ..core.unloaded() }) == core,
{
    law_hinted_items(core.shop_items_hinted, items);
}

/// The server is told of hints exactly if it can be and there are any, and then
/// of all of them in the order of the shop.
pub proof fn law_hints_are_owed(core: CoreView, items: Seq<ShopItem>)
    ensures
        ({
            let hints = new_hints(core.shop_items_hinted, items);
            &&& core.owed_hints(items, false) is None
            &&& hints.len() == 0 ==> core.owed_hints(items, true) is None
            &&& hints.len() > 0 ==> core.owed_hints(items, true) == Some(hints)
        }),
{
}

/// Whatever became of the inventory, the save keeps all the locations that it
/// had and gains those of the placeholders, and nothing else of it changes. The
/// server is told exactly if it can be and knows of fewer.
pub proof fn law_inventory_is_dealt_with(
    core: CoreView,
    items: Seq<InventoryItem>,
    connected: bool,
    save: SaveDataView,
    location: i64,
)
    ensures
        ({
            let (actions, report, kept) = core.after_inventory(items, true, connected, Some(save));
            &&& kept is Some
            &&& kept->0.locations.contains(location) <==> {
                ||| save.locations.contains(location)
                ||| exists|i: int|
                    0 <= i < items.len() && ((#[trigger] items[i]).row matches Some(row)
                        && row.location == location)
            }
            &&& kept->0.seed == save.seed
            &&& kept->0.items_granted == save.items_granted
            &&& kept->0.deaths == save.deaths
            &&& report <==> connected && kept->0.locations.len() > core.locations_sent
            &&& actions == core.after_inventory(items, true, !connected, Some(save)).0
        }),
        core.after_inventory(items, false, connected, Some(save)) == (
            Seq::<InventoryAction>::empty(),
            false,
            Some(save),
        ),
        core.after_inventory(items, true, connected, None) == (
            Seq::<InventoryAction>::empty(),
            false,
            None::<SaveDataView>,
        ),
{
    law_locations_are_those_found(save.locations, items, location);
}

/// For each placeholder of an item of this world, other than Path of the
/// Dragon, the player gets exactly that item, and gets no item otherwise.
pub proof fn law_player_gets_what_placeholders_stand_for(
    core: CoreView,
    items: Seq<InventoryItem>,
    connected: bool,
    save: SaveDataView,
    stack: ItemStack,
)
    ensures
        occurrences(
            core.after_inventory(items, true, connected, Some(save)).0,
            |action: InventoryAction| action == (InventoryAction::GiveItem { stack }),
        ) == occurrences(
            items,
            |item: InventoryItem|
                item.row is Some && item.row->0.item == Some(stack) && item.row->0.goods_icon
                    != Some(7039i16),
        ),
{
    law_items_are_given(items, stack);
}

/// Once the server was told, it owes nothing for the locations of that save, and
/// the client is otherwise the same.
pub proof fn law_reported_client(core: CoreView, save: SaveDataView)
    requires
        save.locations.len() <= usize::MAX,
    ensures
        core.reported(Some(save)).locations_sent == save.locations.len(),
        (CoreView { locations_sent: core.locations_sent, ..core.reported(Some(save)) }) == core,
        core.reported(None) == core,
{
}

/// A number is an event flag by its area alone: of the numbers with a region of
/// one digit, an area of two and five digits more, those with an area below
/// ninety are, and no greater number is.
pub proof fn law_event_flags(region: u32, area: u32, rest: u32, greater: u32)
    requires
        region < 10,
        area < 100,
        rest < 100_000,
        greater >= 100_000_000,
    ensures
        is_flag((region * 10_000_000 + area * 100_000 + rest) as u32) <==> area < 90,
        !is_flag(greater),
{
}

/// `!getevent` reads exactly the flag that its argument spells.
pub proof fn law_getevent(arg: Option<Seq<char>>, debug: bool, flag: u32)
    ensures
        command_outcome("!getevent"@, arg, debug) == CommandStep::Access(
            EventRequest::Read { flag },
        ) <==> arg is Some && u32_of_text(arg->0) == Some(flag) && is_flag(flag),
        command_outcome("!getevent"@, arg, debug) is Handled <==> arg is None || u32_of_text(
            arg->0,
        ) is None || !is_flag(u32_of_text(arg->0)->0),
        command_error("!getevent"@, arg, debug) is Some <==> command_outcome(
            "!getevent"@,
            arg,
            debug,
        ) is Handled,
{
    reveal_strlit("!getevent");
    reveal_strlit("!setevent");
    assert("!getevent"@[1] != "!setevent"@[1]);
}

/// `!setevent`, where it is offered, sets exactly the flag that its argument
/// spells to the value that it spells.
pub proof fn law_setevent(arg: Option<Seq<char>>, flag: u32, value: bool)
    ensures
        command_outcome("!setevent"@, arg, true) == CommandStep::Access(
            EventRequest::Write { flag, value },
        ) <==> arg is Some && flag_and_value(arg->0) == Some((flag, value)) && is_flag(flag),
        command_outcome("!setevent"@, arg, true) is Handled <==> command_error(
            "!setevent"@,
            arg,
            true,
        ) is Some,
        command_outcome("!setevent"@, arg, false) is Unhandled,
        command_error("!setevent"@, arg, false) is None,
{
    reveal_strlit("!getevent");
    reveal_strlit("!setevent");
    assert("!getevent"@[1] != "!setevent"@[1]);
}

/// A command with an argument that makes no sense is answered with how to use
/// it, and one that names no flag with what it named.
pub proof fn law_refusals_are_explained(arg: Option<Seq<char>>, bad: u32)
    ensures
        arg is None || u32_of_text(arg->0) is None ==> command_error("!getevent"@, arg, false)
            is Some && command_error("!getevent"@, arg, false)->0.text() == "Invalid "@
            + "!getevent"@ + "."@ + " Usage:\n"@ + "!getevent EVENT_FLAG"@,
        arg is None || flag_and_value(arg->0) is None ==> command_error("!setevent"@, arg, true)
            is Some && command_error("!setevent"@, arg, true)->0.text() == "Invalid "@
            + "!setevent"@ + "."@ + " Usage:\n"@ + "!setevent EVENT_FLAG BOOL"@,
        arg is Some && u32_of_text(arg->0) == Some(bad) && !is_flag(bad) ==> command_error(
            "!getevent"@,
            arg,
            false,
        ) is Some && command_error("!getevent"@, arg, false)->0.text() == "Invalid event ID: "@
            + decimal_text(bad as nat),
        arg is Some && flag_and_value(arg->0) == Some((bad, true)) && !is_flag(bad)
            ==> command_error("!setevent"@, arg, true) == Some(invalid_flag_print(bad)),
        arg is Some && flag_and_value(arg->0) == Some((bad, false)) && !is_flag(bad)
            ==> command_error("!setevent"@, arg, true) == Some(invalid_flag_print(bad)),
{
    reveal_strlit("!getevent");
    reveal_strlit("!setevent");
    assert("!getevent"@[1] != "!setevent"@[1]);
    lemma_usage_text("!getevent"@, "!getevent EVENT_FLAG"@);
    lemma_usage_text("!setevent"@, "!setevent EVENT_FLAG BOOL"@);
    let part = invalid_flag_print(bad).data[0];
    law_text_of_parts(Seq::empty(), part);
    assert(Seq::<RichTextView>::empty().push(part) =~= invalid_flag_print(bad).data);
    assert(Seq::<char>::empty() + part.text() =~= part.text());
}

proof fn lemma_usage_text(command: Seq<char>, usage: Seq<char>)
    ensures
        usage_print(command, usage).text() == "Invalid "@ + command + "."@
            + " Usage:\n"@ + usage,
{
    let data = usage_print(command, usage).data;
    let none = Seq::<RichTextView>::empty();
    law_text_of_parts(none, data[0]);
    law_text_of_parts(none.push(data[0]), data[1]);
    law_text_of_parts(none.push(data[0]).push(data[1]), data[2]);
    assert(none.push(data[0]).push(data[1]).push(data[2]) =~= data);
    assert(usage_print(command, usage).text() =~= "Invalid "@ + command + "."@
        + " Usage:\n"@ + usage);
}

/// The player is told which flag was set to what, and that the flags are not
/// there if they are not.
pub proof fn law_accesses_are_reported(flag: u32, value: bool, request: EventRequest)
    ensures
        access_print(EventRequest::Write { flag, value }, FlagAccess::Done { value }).text()
            == "Set event "@ + decimal_text(flag as nat) + " to "@ + bool_text(value),
        access_print(EventRequest::Read { flag }, FlagAccess::Done { value }).text() == "Event "@
            + decimal_text(flag as nat) + ": "@ + bool_text(value),
        access_print(request, FlagAccess::NotLoaded).text() == "SprjEventFlagMan not loaded"@,
        access_print(request, FlagAccess::NotLoaded).data[0] is Color,
        access_print(request, FlagAccess::NotLoaded).data[0]->color == TextColor::Red,
        access_print(request, FlagAccess::Done { value }).data[1] is Color,
        access_print(request, FlagAccess::Done { value }).data[1]->color == TextColor::Blue,
        access_print(request, FlagAccess::Done { value }).data.last() == (RichTextView::Color {
            text: bool_text(value),
            color: if value {
                TextColor::Green
            } else {
                TextColor::Red
            },
        }),
{
    lemma_access_text(EventRequest::Write { flag, value }, value);
    lemma_access_text(EventRequest::Read { flag }, value);
    let part = access_print(request, FlagAccess::NotLoaded).data[0];
    law_text_of_parts(Seq::empty(), part);
    assert(Seq::<RichTextView>::empty().push(part) =~= access_print(
        request,
        FlagAccess::NotLoaded,
    ).data);
    assert(Seq::<char>::empty() + part.text() =~= part.text());
}

proof fn lemma_access_text(request: EventRequest, value: bool)
    ensures
        access_print(request, FlagAccess::Done { value }).text() == access_print(
            request,
            FlagAccess::Done { value },
        ).data[0].text() + access_print(request, FlagAccess::Done { value }).data[1].text()
            + access_print(request, FlagAccess::Done { value }).data[2].text() + access_print(
            request,
            FlagAccess::Done { value },
        ).data[3].text(),
{
    let data = access_print(request, FlagAccess::Done { value }).data;
    let none = Seq::<RichTextView>::empty();
    law_text_of_parts(none, data[0]);
    law_text_of_parts(none.push(data[0]), data[1]);
    law_text_of_parts(none.push(data[0]).push(data[1]), data[2]);
    law_text_of_parts(none.push(data[0]).push(data[1]).push(data[2]), data[3]);
    assert(none.push(data[0]).push(data[1]).push(data[2]).push(data[3]) =~= data);
    assert(Seq::<char>::empty() + data[0].text() =~= data[0].text());
}

/// What came of accessing a flag is the newest message, and nothing else of the
/// client changes.
pub proof fn law_accesses_go_to_the_log(core: CoreView, request: EventRequest, access: FlagAccess)
    ensures
        core.accessed(request, access).base.logs.messages.last() == access_print(request, access),
        core.accessed(request, access).base.logs.emitted != core.base.logs.emitted,
        (CoreView { base: core.base, ..core.accessed(request, access) }) == core,
        (CoreBaseView { logs: core.base.logs, ..core.accessed(request, access).base })
            == core.base,
{
}

/// A command that is refused says so in the log, as its newest message and in
/// red. Any other leaves the log as it is.
pub proof fn law_refusals_go_to_the_log(core: Core, command: Seq<char>, arg: Option<Seq<char>>)
    ensures
        ({
            let after = core.command_base(command, arg);
            let before = core.spec_base()@;
            &&& core.command_step(command, arg) is Handled ==> {
                &&& after.logs.emitted != before.logs.emitted
                &&& Some(after.logs.messages.last()) == command_error(command, arg, core@.debug)
                &&& after.logs.messages.last().data[0] is Color
                &&& after.logs.messages.last().data[0]->color == TextColor::Red
                &&& (CoreBaseView { logs: before.logs, ..after }) == before
            }
            &&& !(core.command_step(command, arg) is Handled) ==> after == before
        }),
{
    core.law_shared_part(core.spec_base());
}

/// A player who types `!getevent` and the number of a flag, with any white space
/// around it, reads that flag.
pub proof fn law_typed_getevent(
    core: Core,
    before: Seq<char>,
    count: nat,
    number: Seq<char>,
    after: Seq<char>,
)
    requires
        forall|i: int| 0 <= i < before.len() ==> is_white_space(#[trigger] before[i]),
        forall|i: int| 0 <= i < after.len() ==> is_white_space(#[trigger] after[i]),
        count > 0,
        u32_of_text(number) is Some,
    ensures
        ({
            let flag = u32_of_text(number)->0;
            let message = before + ("!getevent"@ + spaces(count) + number) + after;
            say_step(line_step(core, message)) == (if is_flag(flag) {
                SayStep::Access(EventRequest::Read { flag })
            } else {
                SayStep::Handled
            })
        }),
{
    reveal_strlit("!getevent");
    reveal_strlit("!setevent");
    assert("!getevent"@[1] != "!setevent"@[1]);
    assert forall|i: int| 0 <= i < number.len() implies ('0' <= #[trigger] number[i]
        && number[i] <= '9') || number[i] == '+' by {
        law_what_is_no_number(number, i);
    }
    law_what_is_no_number(number, 0);
    assert(number.len() > 0);
    assert(number.last() == number[number.len() - 1]);
    law_command_is_read(before, "!getevent"@, count, number, after);
    law_getevent(Some(number), core@.debug, u32_of_text(number)->0);
}

/// What is missing is found out exactly if the seed needs it and the player is
/// in a game, and whatever the other options are.
pub proof fn law_missing_content(session: &Session, dlc: InstalledDlc)
    ensures
        dlc_error(Some(session), Some(dlc), true) is None <==> !session.options.enable_dlc || (
        dlc.ashes_of_ariandel && dlc.ringed_city),
        dlc_error(Some(session), Some(dlc), true) matches Some(error) ==> (
        error matches CoreErrorView::MissingDlc(missing) && {
            &&& missing == MissingDlc::RingedCity <==> dlc.ashes_of_ariandel
            &&& missing == MissingDlc::AshesOfAriandel <==> dlc.ringed_city
        }),
        dlc_error(Some(session), Some(dlc), false) is None,
        dlc_error(Some(session), None, true) is None,
        dlc_error(None, Some(dlc), true) is None,
{
}

/// What the client logs of itself is shown and written as its own.
pub proof fn law_own_messages_are_marked(core: CoreView, save: Option<SaveDataView>, now: u64)
    ensures
        core.link_sent(save, now).0.base.logs.unwritten.last() == (LineView {
            source: LogSource::Client,
            print: core.link_sent(save, now).0.base.logs.messages.last(),
        }).written(),
{
}

/// A frame's logic leaves no step out.
pub proof fn law_no_step_is_left_out(step: LiveStep)
    ensures
        !(step is Finished) ==> live_rank(ds3_step_after(step)) == live_rank(step) + 1,
        ds3_step_after(LiveStep::Finished) is Finished,
{
}

} // verus!
