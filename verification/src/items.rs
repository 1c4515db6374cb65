//! What is stored with a save, and how the items that the server sends become
//! items of the game.

use std::collections::{HashMap, HashSet};

use vstd::prelude::*;

use crate::config::text_view;
use crate::error::{CoreError, CoreErrorView};
use crate::game::GameType;
use crate::text::same_text;

verus! {

broadcast use vstd::std_specs::hash::group_hash_axioms;

/// What the client stores with each save file.
#[derive(Debug)]
pub struct SaveData {
    /// The seed that the save was first played with.
    pub seed: Option<String>,
    /// The number of items from the server that this save has been given.
    pub items_granted: usize,
    /// The locations that the player has visited.
    pub locations: HashSet<i64>,
    /// The deaths since the last death link was sent.
    pub deaths: u32,
}

/// The mathematical form of [SaveData].
pub struct SaveDataView {
    pub seed: Option<Seq<char>>,
    pub items_granted: usize,
    pub locations: Set<i64>,
    pub deaths: u32,
}

impl View for SaveData {
    type V = SaveDataView;

    open spec fn view(&self) -> SaveDataView {
        SaveDataView {
            seed: text_view(self.seed),
            items_granted: self.items_granted,
            locations: self.locations@,
            deaths: self.deaths,
        }
    }
}

/// The save data of the save that is loaded, if one is.
pub open spec fn save_view(save: Option<SaveData>) -> Option<SaveDataView> {
    match save {
        Some(save) => Some(save@),
        None => None,
    }
}

impl SaveDataView {
    /// The data for a save that the client has not seen before.
    pub open spec fn initial() -> SaveDataView {
        SaveDataView { seed: None, items_granted: 0, locations: Set::empty(), deaths: 0 }
    }
}

impl SaveData {
    /// The data for a save that the client has not seen before.
    pub fn new() -> (save: SaveData)
        ensures
            save@ == SaveDataView::initial(),
    {
        SaveData { seed: None, items_granted: 0, locations: HashSet::new(), deaths: 0 }
    }
}

/// The seed that a save was played with, if there is a save and it has one.
pub open spec fn save_seed(save: Option<SaveDataView>) -> Option<Seq<char>> {
    match save {
        Some(save) => save.seed,
        None => None,
    }
}

/// The conflict between the seeds of the server's room, the configuration and
/// the save, if there is one.
pub open spec fn seed_conflict(
    game: GameType,
    room: Option<Seq<char>>,
    config: Seq<char>,
    save: Option<Seq<char>>,
) -> Option<CoreErrorView> {
    match (room, save) {
        (Some(room), _) if room != config => Some(
            CoreErrorView::RoomSeedConflict { game, room, config },
        ),
        (Some(room), Some(save)) if room != save => Some(
            CoreErrorView::SaveSeedConflict { room, save },
        ),
        (_, Some(save)) if config != save => Some(
            CoreErrorView::RandomizerSeedConflict { game, config, save },
        ),
        _ => None,
    }
}

/// A save after its seed was checked against that of the configuration.
pub open spec fn with_seed(save: Option<SaveDataView>, config: Seq<char>) -> Option<SaveDataView> {
    match save {
        Some(save) => Some(
            SaveDataView {
                seed: if save.seed is None {
                    Some(config)
                } else {
                    save.seed
                },
                ..save
            },
        ),
        None => None,
    }
}

/// Returns an error if the seeds of the server's room, the save and the
/// configuration are not all the same. If they are, and the save has none yet,
/// it is given that of the configuration.
pub fn check_seed_conflict(
    game: GameType,
    room: Option<&str>,
    config: &str,
    save: &mut Option<SaveData>,
) -> (checked: Result<(), CoreError>)
    ensures
        ({
            let room_seed = match room {
                Some(room) => Some(room@),
                None => None,
            };
            let conflict = seed_conflict(
                game,
                room_seed,
                config@,
                save_seed(save_view(*old(save))),
            );
            match checked {
                Ok(()) => conflict is None && save_view(*final(save)) == with_seed(
                    save_view(*old(save)),
                    config@,
                ),
                Err(error) => conflict == Some(error@) && *final(save) == *old(save),
            }
        }),
{
    if let Some(room) = room {
        if !same_text(room, config) {
            return Err(
                CoreError::RoomSeedConflict {
                    game,
                    room: room.to_owned(),
                    config: config.to_owned(),
                },
            );
        }
    }
    match save {
        Some(data) => {
            match &data.seed {
                Some(seed) => {
                    if same_text(config, seed.as_str()) {
                        Ok(())
                    } else if let Some(room) = room {
                        Err(
                            CoreError::SaveSeedConflict {
                                room: room.to_owned(),
                                save: seed.clone(),
                            },
                        )
                    } else {
                        Err(
                            CoreError::RandomizerSeedConflict {
                                game,
                                config: config.to_owned(),
                                save: seed.clone(),
                            },
                        )
                    }
                },
                None => {
                    data.seed = Some(config.to_owned());
                    Ok(())
                },
            }
        },
        None => Ok(()),
    }
}

/// There is no conflict exactly if every seed that is known is the one of the
/// configuration.
pub proof fn law_no_conflict_means_equal_seeds(
    game: GameType,
    room: Option<Seq<char>>,
    config: Seq<char>,
    save: Option<Seq<char>>,
)
    ensures
        seed_conflict(game, room, config, save) is None <==> {
            &&& room matches Some(room) ==> room == config
            &&& save matches Some(save) ==> save == config
        },
{
}

/// A save that passed the check carries the seed of the configuration, and
/// passes again.
pub proof fn law_checked_save_carries_seed(
    game: GameType,
    room: Option<Seq<char>>,
    config: Seq<char>,
    save: SaveDataView,
)
    requires
        seed_conflict(game, room, config, save.seed) is None,
    ensures
        save_seed(with_seed(Some(save), config)) == Some(config),
        seed_conflict(game, room, config, save_seed(with_seed(Some(save), config))) is None,
{
}

/// An item that the server has sent, with its position in the list of all
/// items that were ever sent to this player.
#[derive(Clone, Copy, Debug, PartialEq, Eq, Structural)]
pub struct ReceivedItem {
    /// The position in the list of all items ever sent.
    pub index: usize,
    /// The number by which the server knows the item.
    pub id: i64,
}

/// The first item in `received` that a save with `granted` items still lacks,
/// as a position in `received`; the length of `received` if it lacks none.
pub open spec fn next_item(received: Seq<ReceivedItem>, granted: usize, from: int) -> int
    decreases received.len() - from,
{
    if 0 <= from < received.len() && received[from].index < granted {
        next_item(received, granted, from + 1)
    } else {
        from
    }
}

/// How the server's items map to those of the game.
#[derive(Debug)]
pub struct ItemTable {
    /// The game's item for each item of the server.
    pub item_ids: HashMap<i64, u32>,
    /// How many of it the player gets, where that is not one.
    pub item_counts: HashMap<i64, u32>,
}

/// An item of the game and how many of it to give.
#[derive(Clone, Copy, Debug, PartialEq, Eq, Structural)]
pub struct ItemStack {
    pub id: u32,
    pub quantity: u32,
}

impl ItemTable {
    /// Whether the game has an item for the server's item `id`.
    pub open spec fn knows(self, id: i64) -> bool {
        self.item_ids@.contains_key(id)
    }

    /// What the server's item `id` is in the game.
    pub open spec fn spec_resolve(self, id: i64) -> ItemStack {
        ItemStack {
            id: self.item_ids@[id],
            quantity: if self.item_counts@.contains_key(id) {
                self.item_counts@[id]
            } else {
                1
            },
        }
    }

    /// Whether the next item to grant, if there is one, has a counterpart in
    /// the game.
    pub open spec fn knows_next(self, received: Seq<ReceivedItem>, granted: usize) -> bool {
        let next = next_item(received, granted, 0);
        next < received.len() ==> self.knows(received[next].id)
    }

    /// What the server's item `id` is in the game.
    pub fn resolve(&self, id: i64) -> (stack: ItemStack)
        requires
            self.knows(id),
        ensures
            stack == self.spec_resolve(id),
    {
        let item: u32 = *self.item_ids.get(&id).unwrap();
        let quantity: u32 = match self.item_counts.get(&id) {
            Some(quantity) => *quantity,
            None => 1,
        };
        ItemStack { id: item, quantity }
    }

    /// The server's number of the next item to grant, if there is such an item
    /// and it has no counterpart in the game.
    pub fn unknown_next(&self, received: &Vec<ReceivedItem>, granted: usize) -> (id: Option<i64>)
        ensures
            id is None <==> self.knows_next(received@, granted),
            id matches Some(id) ==> id == received@[next_item(received@, granted, 0)].id,
    {
        match find_next(received, granted) {
            Some(next) => {
                let id: i64 = received[next].id;
                match self.item_ids.get(&id) {
                    Some(_) => None,
                    None => Some(id),
                }
            },
            None => None,
        }
    }
}

fn find_next(received: &Vec<ReceivedItem>, granted: usize) -> (next: Option<usize>)
    ensures
        match next {
            Some(next) => next < received@.len() && next == next_item(received@, granted, 0),
            None => next_item(received@, granted, 0) == received@.len(),
        },
{
    let mut next: usize = 0;
    while next < received.len()
        invariant
            next <= received@.len(),
            next_item(received@, granted, next as int) == next_item(received@, granted, 0),
        decreases received@.len() - next,
    {
        if received[next].index >= granted {
            return Some(next);
        }
        next = next + 1;
    }
    None
}

/// Takes the next item that the save still lacks and counts it as granted. The
/// item is returned with its position in `received`.
pub fn take_next_item(
    save: &mut SaveData,
    received: &Vec<ReceivedItem>,
    table: &ItemTable,
) -> (taken: Option<(usize, ItemStack)>)
    requires
        old(save).items_granted < usize::MAX,
        table.knows_next(received@, old(save).items_granted),
    ensures
        ({
            let next = next_item(received@, old(save).items_granted, 0);
            if next < received@.len() {
                &&& taken == Some((next as usize, table.spec_resolve(received@[next].id)))
                &&& final(save)@ == (SaveDataView {
                    items_granted: (old(save)@.items_granted + 1) as usize,
                    ..old(save)@
                })
            } else {
                taken is None && *final(save) == *old(save)
            }
        }),
{
    match find_next(received, save.items_granted) {
        Some(next) => {
            let stack: ItemStack = table.resolve(received[next].id);
            save.items_granted = save.items_granted + 1;
            Some((next, stack))
        },
        None => None,
    }
}

/// The save once the items that the server has sent were looked at, and the item
/// that the player gets, with its position in `received`. `waited` says whether
/// it is long enough since the last item.
pub open spec fn incoming(
    received: Option<Seq<ReceivedItem>>,
    table: ItemTable,
    ready: bool,
    save: Option<SaveDataView>,
    waited: bool,
) -> (Option<SaveDataView>, Option<(usize, ItemStack)>) {
    match (received, save) {
        (Some(_), None) if ready => (Some(SaveDataView::initial()), None),
        (Some(received), Some(save)) if ready && waited => {
            let next = next_item(received, save.items_granted, 0);
            if next < received.len() {
                (
                    Some(
                        SaveDataView {
                            items_granted: (save.items_granted + 1) as usize,
                            ..save
                        },
                    ),
                    Some((next as usize, table.spec_resolve(received[next].id))),
                )
            } else {
                (Some(save), None)
            }
        },
        _ => (save, None),
    }
}

/// If the server's list is complete, so that every item stands at its own
/// position, a save that was given so many items is next given exactly the
/// item at that position. Each item is then given once, in order.
pub proof fn law_items_granted_once_in_order(received: Seq<ReceivedItem>, granted: usize)
    requires
        forall|i: int| 0 <= i < received.len() ==> (#[trigger] received[i]).index == i,
    ensures
        next_item(received, granted, 0) == (if granted < received.len() {
            granted as int
        } else {
            received.len() as int
        }),
{
    lemma_next_item_from(received, granted, 0);
}

proof fn lemma_next_item_from(received: Seq<ReceivedItem>, granted: usize, from: int)
    requires
        0 <= from <= received.len(),
        from <= granted,
        forall|i: int| 0 <= i < received.len() ==> (#[trigger] received[i]).index == i,
    ensures
        next_item(received, granted, from) == (if granted < received.len() {
            granted as int
        } else {
            received.len() as int
        }),
    decreases received.len() - from,
{
    if from < received.len() && received[from].index < granted {
        lemma_next_item_from(received, granted, from + 1);
    }
}

/// The items that a save with `granted` items is given next, `count` of them,
/// one after another.
pub open spec fn next_items(received: Seq<ReceivedItem>, granted: usize, count: nat) -> Seq<i64>
    decreases count,
{
    let next = next_item(received, granted, 0);
    if count == 0 || next >= received.len() {
        Seq::empty()
    } else {
        seq![received[next].id] + next_items(
            received,
            (granted + 1) as usize,
            (count - 1) as nat,
        )
    }
}

/// If the server's list is complete, a save that already has `granted` items
/// is given all the others, in the server's order, with none left out and none
/// given twice.
pub proof fn law_all_items_are_granted(received: Seq<ReceivedItem>, granted: usize)
    requires
        forall|i: int| 0 <= i < received.len() ==> (#[trigger] received[i]).index == i,
        granted <= received.len() <= usize::MAX,
    ensures
        next_items(received, granted, (received.len() - granted) as nat) == Seq::new(
            (received.len() - granted) as nat,
            |i: int| received[granted + i].id,
        ),
    decreases received.len() - granted,
{
    law_items_granted_once_in_order(received, granted);
    let rest = Seq::new(
        (received.len() - granted) as nat,
        |i: int| received[granted + i].id,
    );
    if granted < received.len() {
        law_all_items_are_granted(received, (granted + 1) as usize);
        let later = Seq::new(
            (received.len() - (granted + 1)) as nat,
            |i: int| received[(granted + 1) as usize + i].id,
        );
        assert(rest =~= seq![received[granted as int].id] + later);
    } else {
        assert(rest =~= Seq::<i64>::empty());
    }
}

/// The first item that the save does not count as granted is handed over: the
/// game's item for it, as many as the table says and otherwise one. It then
/// counts as granted, and nothing else about the save changes.
pub proof fn law_item_is_handed_over(
    received: Seq<ReceivedItem>,
    table: ItemTable,
    save: SaveDataView,
    i: int,
)
    requires
        0 <= i < received.len() <= usize::MAX,
        received[i].index >= save.items_granted,
        forall|j: int| 0 <= j < i ==> (#[trigger] received[j]).index < save.items_granted,
        save.items_granted < usize::MAX,
    ensures
        ({
            let (kept, taken) = incoming(Some(received), table, true, Some(save), true);
            let id = received[i].id;
            let (index, stack) = taken->0;
            &&& taken is Some
            &&& index == i
            &&& stack.id == table.item_ids@[id]
            &&& table.item_counts@.dom().contains(id) ==> stack.quantity
                == table.item_counts@[id]
            &&& !table.item_counts@.dom().contains(id) ==> stack.quantity == 1
            &&& kept is Some
            &&& kept->0.items_granted == save.items_granted + 1
            &&& kept->0.seed == save.seed
            &&& kept->0.locations == save.locations
            &&& kept->0.deaths == save.deaths
        }),
{
    law_granted_item_is_new(received, save.items_granted);
    let next = next_item(received, save.items_granted, 0);
    if next > i {
        assert(received[i].index < save.items_granted);
    } else if next < i {
        assert(received[next].index < save.items_granted);
    }
}

/// Nothing is handed over before it is time, without a connection, a game or a
/// save, or where everything counts as granted. Only a new file gets its save
/// data.
pub proof fn law_nothing_is_handed_over(
    received: Option<Seq<ReceivedItem>>,
    table: ItemTable,
    ready: bool,
    save: Option<SaveDataView>,
    waited: bool,
)
    requires
        ({
            ||| received is None
            ||| !ready
            ||| save is None
            ||| !waited
            ||| forall|j: int|
                0 <= j < received->0.len() ==> (#[trigger] received->0[j]).index
                    < save->0.items_granted
        }),
    ensures
        incoming(received, table, ready, save, waited).1 is None,
        save is Some || received is None || !ready ==> incoming(
            received,
            table,
            ready,
            save,
            waited,
        ).0 == save,
        save is None && received is Some && ready ==> {
            let kept = incoming(received, table, ready, save, waited).0;
            &&& kept is Some
            &&& kept->0.seed is None
            &&& kept->0.items_granted == 0
            &&& kept->0.deaths == 0
            &&& kept->0.locations == Set::<i64>::empty()
        },
{
    if received is Some && save is Some {
        law_granted_item_is_new(received->0, save->0.items_granted);
    }
}

/// Each item of the server is the game's item that the table has for it, as many
/// as the table says and otherwise one.
pub proof fn law_items_are_resolved(table: ItemTable, id: i64)
    ensures
        table.spec_resolve(id).id == table.item_ids@[id],
        table.item_counts@.dom().contains(id) ==> table.spec_resolve(id).quantity
            == table.item_counts@[id],
        !table.item_counts@.dom().contains(id) ==> table.spec_resolve(id).quantity == 1,
        table.knows(id) <==> table.item_ids@.dom().contains(id),
{
}

/// The table falls short exactly where the first item that is not granted yet is
/// one that it has nothing for.
pub proof fn law_when_the_table_falls_short(
    received: Seq<ReceivedItem>,
    table: ItemTable,
    granted: usize,
    i: int,
)
    requires
        0 <= i < received.len(),
        received[i].index >= granted,
        forall|j: int| 0 <= j < i ==> (#[trigger] received[j]).index < granted,
    ensures
        table.knows_next(received, granted) <==> table.item_ids@.dom().contains(received[i].id),
{
    law_granted_item_is_new(received, granted);
    let next = next_item(received, granted, 0);
    if next > i {
        assert(received[i].index < granted);
    } else if next < i {
        assert(received[next].index < granted);
    }
}

/// Which conflict it is follows from which seeds differ, and the conflict names
/// them both.
pub proof fn law_which_conflict(
    game: GameType,
    room: Seq<char>,
    config: Seq<char>,
    save: Seq<char>,
    any: Option<Seq<char>>,
)
    ensures
        room != config ==> seed_conflict(game, Some(room), config, any) == Some(
            CoreErrorView::RoomSeedConflict { game, room, config },
        ),
        room == config && save != config ==> seed_conflict(game, Some(room), config, Some(save))
            == Some(CoreErrorView::SaveSeedConflict { room, save }),
        save != config ==> seed_conflict(game, None, config, Some(save)) == Some(
            CoreErrorView::RandomizerSeedConflict { game, config, save },
        ),
        seed_conflict(game, None, config, None) is None,
        room == config ==> seed_conflict(game, Some(room), config, None) is None,
        room == config && save == config ==> seed_conflict(game, Some(room), config, Some(save))
            is None,
        save == config ==> seed_conflict(game, None, config, Some(save)) is None,
{
}

/// A save is given a seed only if it has none, and nothing else about it
/// changes.
pub proof fn law_seed_is_filled_in(save: SaveDataView, config: Seq<char>)
    ensures
        ({
            let after = with_seed(Some(save), config);
            &&& after is Some
            &&& save.seed is None ==> after->0.seed == Some(config)
            &&& save.seed is Some ==> after->0.seed == save.seed
            &&& after->0.items_granted == save.items_granted
            &&& after->0.locations == save.locations
            &&& after->0.deaths == save.deaths
        }),
        with_seed(None, config) is None,
        save_seed(Some(save)) == save.seed,
        save_seed(None) is None,
{
}

/// No item that a save was given before is given to it again: whatever is
/// granted stands at or behind the number of items granted so far.
pub proof fn law_granted_item_is_new(received: Seq<ReceivedItem>, granted: usize)
    ensures
        next_item(received, granted, 0) < received.len() ==> received[next_item(
            received,
            granted,
            0,
        )].index >= granted,
        forall|i: int|
            0 <= i < next_item(received, granted, 0) && i < received.len() ==> (
            #[trigger] received[i]).index < granted,
        0 <= next_item(received, granted, 0) <= received.len(),
{
    lemma_next_item_is_first(received, granted, 0);
}

proof fn lemma_next_item_is_first(received: Seq<ReceivedItem>, granted: usize, from: int)
    requires
        0 <= from <= received.len(),
    ensures
        from <= next_item(received, granted, from) <= received.len(),
        next_item(received, granted, from) < received.len() ==> received[next_item(
            received,
            granted,
            from,
        )].index >= granted,
        forall|i: int|
            from <= i < next_item(received, granted, from) ==> (#[trigger] received[i]).index
                < granted,
    decreases received.len() - from,
{
    if from < received.len() && received[from].index < granted {
        lemma_next_item_is_first(received, granted, from + 1);
    }
}

} // verus!
