//! What always holds of the client for Dark Souls III.

use vstd::arithmetic::div_mod::{
    lemma_fundamental_div_mod, lemma_fundamental_div_mod_converse,
};
use vstd::prelude::*;

use crate::client::{live_rank, CommandStep, EventRequest, LiveStep};
use crate::clock::{WallTime, SECOND};
use crate::command::{flag_text, law_flag_and_value_round_trip};
use crate::core_base::EventView;
use crate::ds3::{
    access_print, can_grant, command_outcome, death_sends, ds3_step_after, hinted_with, is_flag,
    is_own_command, new_hints, requested_flag, CoreView, FlagAccess, Session, ShopItem,
    DEATH_LINK_GRACE_PERIOD,
};
use crate::items::SaveDataView;
use crate::print::parts_text;
use crate::text::{bool_text, decimal_text, law_decimal_round_trip};

verus! {

/// For a grace period after a death link was sent or received, none is
/// received and no death is dealt with.
pub proof fn law_death_links_keep_their_distance(
    core: CoreView,
    session: Option<&Session>,
    events: Seq<EventView>,
    hp: Option<i32>,
    save: Option<SaveDataView>,
    now: u64,
    wall_now: WallTime,
)
    requires
        now < core.last_death_link + DEATH_LINK_GRACE_PERIOD,
    ensures
        !core.death_link_allowed(session, now),
        !core.any_strikes(events, session, now, wall_now),
        !core.sees_death(session, hp, save, now),
{
}

/// Whether `times` are such that a client that dealt with a death link at each
/// of them was allowed to deal with the next.
pub open spec fn follow_each_other(
    core: CoreView,
    session: Option<&Session>,
    times: Seq<u64>,
) -> bool {
    forall|i: int, j: int|
        0 <= i && j == i + 1 && j < times.len() ==> (CoreView {
            last_death_link: #[trigger] times[i],
            ..core
        }).death_link_allowed(session, #[trigger] times[j])
}

/// However many death links are sent, received and counted, any two of them lie
/// at least one grace period apart for each step from one to the other.
pub proof fn law_death_links_are_spaced(
    core: CoreView,
    session: Option<&Session>,
    times: Seq<u64>,
    first: int,
    last: int,
)
    requires
        follow_each_other(core, session, times),
        0 <= first <= last < times.len(),
    ensures
        times[last] - times[first] >= (last - first) * DEATH_LINK_GRACE_PERIOD,
    decreases last - first,
{
    if first < last {
        law_death_links_are_spaced(core, session, times, first, last - 1);
        assert((CoreView { last_death_link: times[last - 1], ..core }).death_link_allowed(
            session,
            times[last],
        ));
    }
}

/// A death that a death link brought about makes no death link of its own:
/// where the events of a frame kill the player, that frame sends nothing.
pub proof fn law_received_death_link_is_not_passed_on(
    core: CoreView,
    session: Option<&Session>,
    hp: Option<i32>,
    save: Option<SaveDataView>,
    now: u64,
)
    ensures
        !(CoreView { last_death_link: now, ..core }).sees_death(session, hp, save, now),
{
}

/// A player's own death links, which the server sends back, do them no harm.
pub proof fn law_own_death_links_are_ignored(
    core: CoreView,
    source: Seq<char>,
    time: WallTime,
    session: Option<&Session>,
    now: u64,
    wall_now: WallTime,
)
    requires
        session is Some,
        session->0.player@ == source,
    ensures
        !core.death_link_strikes(source, time, session, now, wall_now),
{
}

/// A death link only kills if it was sent a grace period or more after the
/// last one, as the wall clock has it, whenever it arrives.
pub proof fn law_stale_death_links_are_ignored(
    core: CoreView,
    source: Seq<char>,
    time: WallTime,
    session: Option<&Session>,
    now: u64,
    wall_now: WallTime,
)
    requires
        core.last_death_link <= now,
        time.spec_total_nanos() - (wall_now.spec_total_nanos() - (now - core.last_death_link))
            < DEATH_LINK_GRACE_PERIOD,
    ensures
        !core.death_link_strikes(source, time, session, now, wall_now),
{
}

/// The deaths without a death link, and the death links sent, once a player
/// has died `times` times.
pub open spec fn after_deaths(times: nat, amnesty: u32) -> (nat, nat)
    decreases times,
{
    if times == 0 {
        (0, 0)
    } else {
        let (deaths, links) = after_deaths((times - 1) as nat, amnesty);
        if death_sends(deaths, amnesty) {
            (0, links + 1)
        } else {
            (deaths + 1, links)
        }
    }
}

/// With an amnesty of `n` deaths, every `n`th death makes a death link.
pub proof fn law_amnesty(times: nat, amnesty: u32)
    requires
        amnesty > 0,
    ensures
        after_deaths(times, amnesty) == (times % (amnesty as nat), times / (amnesty as nat)),
    decreases times,
{
    let n = amnesty as int;
    if times > 0 {
        law_amnesty((times - 1) as nat, amnesty);
        let q = (times - 1) / n;
        let r = (times - 1) % n;
        lemma_fundamental_div_mod(times - 1, n);
        if r + 1 >= n {
            assert(times == n * (q + 1) + 0) by (nonlinear_arith)
                requires
                    times - 1 == n * q + r,
                    r + 1 == n,
            ;
            lemma_fundamental_div_mod_converse(times as int, n, q + 1, 0);
        } else {
            lemma_fundamental_div_mod_converse(times as int, n, q, r + 1);
        }
    } else {
        lemma_fundamental_div_mod_converse(0, n, 0, 0);
    }
}

/// At most one item is granted per second.
pub proof fn law_one_item_per_second(
    core: CoreView,
    connected: bool,
    ready: bool,
    save: Option<SaveDataView>,
    granted_at: u64,
    now: u64,
)
    requires
        now < granted_at + SECOND,
    ensures
        !can_grant(
            connected,
            ready,
            save,
            (CoreView { last_item_time: granted_at, ..core }).last_item_time,
            now,
        ),
{
}

/// A shop's items stay hinted, and none that was not on sale is added.
pub proof fn law_hinted_items(hinted: Set<u32>, items: Seq<ShopItem>)
    ensures
        forall|id: u32| #[trigger]
            hinted_with(hinted, items).contains(id) <==> hinted.contains(id) || exists|i: int|
                0 <= i < items.len() && (#[trigger] items[i]).id == id && items[i].location is Some,
    decreases items.len(),
{
    if items.len() > 0 {
        let before = items.drop_last();
        law_hinted_items(hinted, before);
        assert forall|id: u32| #[trigger]
            hinted_with(hinted, items).contains(id) <==> hinted.contains(id) || exists|i: int|
                0 <= i < items.len() && (#[trigger] items[i]).id == id
                    && items[i].location is Some by {
            assert(forall|i: int|
                #![trigger before[i]]
                #![trigger items[i]]
                0 <= i < before.len() ==> before[i] == items[i]);
            if hinted_with(hinted, before).contains(id) && !hinted.contains(id) {
                let i = choose|i: int|
                    0 <= i < before.len() && (#[trigger] before[i]).id == id
                        && before[i].location is Some;
                assert(items[i].id == id && items[i].location is Some);
            }
            if !hinted.contains(id) && exists|i: int|
                0 <= i < items.len() && (#[trigger] items[i]).id == id
                    && items[i].location is Some {
                let i = choose|i: int|
                    0 <= i < items.len() && (#[trigger] items[i]).id == id
                        && items[i].location is Some;
                if i < before.len() {
                    assert(before[i].id == id && before[i].location is Some);
                }
            }
        }
    }
}

/// What a shop sells is hinted once: a shop whose placeholders were all hinted
/// before has nothing new.
pub proof fn law_hints_are_not_repeated(hinted: Set<u32>, items: Seq<ShopItem>)
    requires
        forall|i: int|
            0 <= i < items.len() && (#[trigger] items[i]).location is Some ==> hinted.contains(
                items[i].id,
            ),
    ensures
        new_hints(hinted, items).len() == 0,
        hinted_with(hinted, items) == hinted,
    decreases items.len(),
{
    if items.len() > 0 {
        let before = items.drop_last();
        assert forall|i: int|
            0 <= i < before.len() && (#[trigger] before[i]).location is Some implies hinted.contains(
            before[i].id,
        ) by {
            assert(before[i] == items[i]);
        }
        law_hints_are_not_repeated(hinted, before);
        assert(items.last() == items[items.len() - 1]);
        assert(hinted_with(hinted, items) =~= hinted);
    }
}

/// Once the hints for a shop were sent, it has nothing new to hint while the
/// game stays loaded.
pub proof fn law_sent_hints_are_not_repeated(core: CoreView, items: Seq<ShopItem>)
    ensures
        new_hints(core.hinted(items).shop_items_hinted, items).len() == 0,
{
    law_hinted_items(core.shop_items_hinted, items);
    law_hints_are_not_repeated(core.hinted(items).shop_items_hinted, items);
}

/// Hints are not remembered across loads: once the player has quit to the main
/// menu, a shop has the same to hint as to a client that has just started.
pub proof fn law_hints_are_forgotten_on_load(core: CoreView, items: Seq<ShopItem>)
    ensures
        new_hints(core.unloaded().shop_items_hinted, items) == new_hints(Set::empty(), items),
{
}

/// Every placeholder in a shop that was not hinted before is hinted: by the
/// location of the first item on sale with its number.
pub proof fn law_all_new_placeholders_are_hinted(hinted: Set<u32>, items: Seq<ShopItem>, i: int)
    requires
        0 <= i < items.len(),
        items[i].location is Some,
        !hinted.contains(items[i].id),
        forall|j: int|
            0 <= j < i ==> !((#[trigger] items[j]).id == items[i].id && items[j].location is Some),
    ensures
        new_hints(hinted, items).contains(items[i].location->0),
    decreases items.len(),
{
    let before = items.drop_last();
    assert(forall|j: int|
        #![trigger before[j]]
        #![trigger items[j]]
        0 <= j < before.len() ==> before[j] == items[j]);
    let hints = new_hints(hinted, before);
    if i < before.len() {
        law_all_new_placeholders_are_hinted(hinted, before, i);
        let k = choose|k: int| 0 <= k < hints.len() && hints[k] == items[i].location->0;
        assert(new_hints(hinted, items)[k] == items[i].location->0);
    } else {
        law_hinted_items(hinted, before);
        assert(!hinted_with(hinted, before).contains(items[i].id));
        assert(new_hints(hinted, items)[hints.len() as int] == items[i].location->0);
    }
}

/// The server is told of the goal once per session.
pub proof fn law_goal_is_sent_once(core: CoreView, flags: Option<Seq<bool>>, connected: bool)
    ensures
        !(CoreView { sent_goal: true, ..core }).owes_goal(flags, connected),
{
}

/// The game has two commands, one of them only for debugging. All others are
/// left to the server.
pub proof fn law_other_commands_are_unhandled(
    command: Seq<char>,
    arg: Option<Seq<char>>,
    debug: bool,
)
    requires
        command != "!getevent"@,
        command != "!setevent"@ || !debug,
    ensures
        command_outcome(command, arg, debug) is Unhandled,
{
}

/// The game's own commands never reach the server, however they are used.
pub proof fn law_own_commands_stay_here(command: Seq<char>, arg: Option<Seq<char>>, debug: bool)
    requires
        is_own_command(command, debug),
    ensures
        !(command_outcome(command, arg, debug) is Unhandled),
{
}

/// Only event flags are ever accessed.
pub proof fn law_only_flags_are_accessed(command: Seq<char>, arg: Option<Seq<char>>, debug: bool)
    ensures
        command_outcome(command, arg, debug) matches CommandStep::Access(request) ==> is_flag(
            requested_flag(request),
        ),
{
}

/// What `!setevent` is told, `!getevent` gives back: both mean the same flag, the
/// flag is set to the value that was asked for, and that value is then shown.
pub proof fn law_getevent_gives_back_setevent(flag: u32, spaces: nat, value: bool)
    requires
        is_flag(flag),
        spaces > 0,
    ensures
        command_outcome("!setevent"@, Some(flag_text(flag, spaces, value)), true)
            == CommandStep::Access(EventRequest::Write { flag, value }),
        command_outcome("!getevent"@, Some(decimal_text(flag as nat)), true)
            == CommandStep::Access(EventRequest::Read { flag }),
        access_print(EventRequest::Read { flag }, FlagAccess::Done { value }).text() == "Event "@
            + decimal_text(flag as nat) + ": "@ + bool_text(value),
{
    law_flag_and_value_round_trip(flag, spaces, value);
    law_decimal_round_trip(flag);
    reveal_strlit("!getevent");
    reveal_strlit("!setevent");
    assert("!getevent"@[1] != "!setevent"@[1]);
    let parts = access_print(EventRequest::Read { flag }, FlagAccess::Done { value }).data;
    reveal_with_fuel(parts_text, 5);
    assert(parts.drop_last().drop_last().drop_last().drop_last() =~= Seq::empty());
    assert(parts_text(parts) =~= "Event "@ + decimal_text(flag as nat) + ": "@ + bool_text(value));
}

/// A frame's logic comes to an end: each step is followed by a later one.
pub proof fn law_live_update_ends(step: LiveStep)
    requires
        step != LiveStep::Finished,
    ensures
        live_rank(ds3_step_after(step)) > live_rank(step),
{
}

} // verus!
