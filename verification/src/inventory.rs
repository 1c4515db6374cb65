//! Placeholder items: stand-ins that the randomizer puts into the game, each
//! for one location of the multiworld.

use vstd::prelude::*;

use crate::items::{save_view, ItemStack, SaveData, SaveDataView};

verus! {

broadcast use vstd::std_specs::hash::group_hash_axioms;

/// The gesture that the game calls Path of the Dragon.
pub const PATH_OF_THE_DRAGON: u32 = 29;

/// The icon of the placeholder for Path of the Dragon.
pub const PATH_OF_THE_DRAGON_ICON: i16 = 7039;

/// What the game's tables say of a placeholder.
#[derive(Clone, Copy, Debug, PartialEq, Eq, Structural)]
pub struct PlaceholderRow {
    /// The location that the placeholder stands for.
    pub location: i64,
    /// The icon, if the placeholder is in the table of goods.
    pub goods_icon: Option<i16>,
    /// The item that the player gets for it, if that is one of this world.
    pub item: Option<ItemStack>,
}

/// An item in the player's inventory.
#[derive(Clone, Copy, Debug, PartialEq, Eq, Structural)]
pub struct InventoryItem {
    pub id: u32,
    /// What is known of the item if it is a placeholder.
    pub row: Option<PlaceholderRow>,
}

/// Something to do to the player's possessions.
#[derive(Clone, Copy, Debug, PartialEq, Eq, Structural)]
pub enum InventoryAction {
    /// Let the player perform a gesture.
    AcquireGesture { gesture: u32 },
    /// Give the player items, without a notification.
    GiveItem { stack: ItemStack },
    /// Take items out of the inventory.
    RemoveItem { stack: ItemStack },
}

/// What becomes of a placeholder: the player gets the gesture or the item that
/// it stands for, if it is not for another world, and the placeholder goes.
pub open spec fn placeholder_actions(id: u32, row: PlaceholderRow) -> Seq<InventoryAction> {
    let remove = InventoryAction::RemoveItem { stack: ItemStack { id, quantity: 1 } };
    if row.goods_icon == Some(PATH_OF_THE_DRAGON_ICON) {
        seq![InventoryAction::AcquireGesture { gesture: PATH_OF_THE_DRAGON }, remove]
    } else if row.item is Some {
        seq![InventoryAction::GiveItem { stack: row.item->0 }, remove]
    } else {
        seq![remove]
    }
}

/// What becomes of an item in the inventory.
pub open spec fn item_actions(item: InventoryItem) -> Seq<InventoryAction> {
    match item.row {
        Some(row) => placeholder_actions(item.id, row),
        None => Seq::empty(),
    }
}

/// What becomes of all the items in the inventory, in order.
pub open spec fn inventory_actions(items: Seq<InventoryItem>) -> Seq<InventoryAction>
    decreases items.len(),
{
    if items.len() == 0 {
        Seq::empty()
    } else {
        inventory_actions(items.drop_last()) + item_actions(items.last())
    }
}

/// The visited locations once those of the placeholders among `items` are
/// added.
pub open spec fn locations_with(locations: Set<i64>, items: Seq<InventoryItem>) -> Set<i64>
    decreases items.len(),
{
    if items.len() == 0 {
        locations
    } else {
        let before = locations_with(locations, items.drop_last());
        match items.last().row {
            Some(row) => before.insert(row.location),
            None => before,
        }
    }
}

/// Notes the location of one item of the inventory if it is a placeholder, and
/// adds what is to become of it to `actions`.
pub fn process_item(
    save: &mut SaveData,
    item: &InventoryItem,
    actions: &mut Vec<InventoryAction>,
)
    ensures
        final(actions)@ == old(actions)@ + item_actions(*item),
        final(save)@ == (SaveDataView {
            locations: locations_with(old(save)@.locations, seq![*item]),
            ..old(save)@
        }),
{
    proof {
        reveal_with_fuel(locations_with, 2);
        assert(seq![*item].drop_last() =~= Seq::<InventoryItem>::empty());
        assert(old(actions)@ + Seq::<InventoryAction>::empty() =~= old(actions)@);
    }
    if let Some(row) = item.row {
        save.locations.insert(row.location);
        let dragon: bool = match row.goods_icon {
            Some(icon) => icon == PATH_OF_THE_DRAGON_ICON,
            None => false,
        };
        if dragon {
            actions.push(InventoryAction::AcquireGesture { gesture: PATH_OF_THE_DRAGON });
        } else if let Some(stack) = row.item {
            actions.push(InventoryAction::GiveItem { stack });
        }
        actions.push(
            InventoryAction::RemoveItem { stack: ItemStack { id: item.id, quantity: 1 } },
        );
    }
    assert(actions@ =~= old(actions)@ + item_actions(*item));
}

/// Notes the locations of all the placeholders in the inventory, and says what
/// is to become of them.
pub fn process_items(save: &mut SaveData, items: &Vec<InventoryItem>) -> (actions: Vec<
    InventoryAction,
>)
    ensures
        actions@ == inventory_actions(items@),
        final(save)@ == (SaveDataView {
            locations: locations_with(old(save)@.locations, items@),
            ..old(save)@
        }),
{
    let mut actions: Vec<InventoryAction> = Vec::new();
    let ghost start = save@;
    let mut i: usize = 0;
    assert(items@.take(0) =~= Seq::<InventoryItem>::empty());
    while i < items.len()
        invariant
            i <= items@.len(),
            actions@ == inventory_actions(items@.take(i as int)),
            save@ == (SaveDataView {
                locations: locations_with(start.locations, items@.take(i as int)),
                ..start
            }),
        decreases items@.len() - i,
    {
        process_item(save, &items[i], &mut actions);
        proof {
            reveal_with_fuel(locations_with, 2);
            assert(seq![items@[i as int]].drop_last() =~= Seq::<InventoryItem>::empty());
            assert(items@.take(i + 1).drop_last() =~= items@.take(i as int));
        }
        i = i + 1;
    }
    assert(items@.take(items@.len() as int) =~= items@);
    actions
}

/// Whether the server is to be told which locations were visited: if it can
/// be, and there are more than it was told of in this session.
pub open spec fn owes_report(
    save: Option<SaveDataView>,
    locations_sent: usize,
    connected: bool,
) -> bool {
    save is Some && save->0.locations.len() > locations_sent && connected
}

/// Whether the server is to be told which locations were visited.
pub fn should_report(save: &Option<SaveData>, locations_sent: usize, connected: bool) -> (report:
    bool)
    ensures
        report == owes_report(save_view(*save), locations_sent, connected),
{
    match save {
        Some(save) => save.locations.len() > locations_sent && connected,
        None => false,
    }
}

/// Once the server was told of all visited locations, nothing is owed until
/// another one is visited.
pub proof fn law_reported_locations_are_settled(save: SaveDataView, connected: bool)
    requires
        save.locations.finite(),
        save.locations.len() <= usize::MAX,
    ensures
        !owes_report(Some(save), save.locations.len() as usize, connected),
        forall|location: i64|
            !save.locations.contains(location) ==> #[trigger] owes_report(
                Some(SaveDataView { locations: save.locations.insert(location), ..save }),
                save.locations.len() as usize,
                true,
            ),
{
}

/// No visited location is passed over: as long as the server was told of
/// nothing else in this session, it is owed a report unless it knows them all.
pub proof fn law_unreported_locations_are_owed(save: SaveDataView, told: Set<i64>)
    requires
        save.locations.finite(),
        told.subset_of(save.locations),
        told.len() <= usize::MAX,
    ensures
        owes_report(Some(save), told.len() as usize, true) <==> save.locations != told,
{
    vstd::set_lib::lemma_len_subset(told, save.locations);
    if save.locations.len() == told.len() {
        vstd::set_lib::lemma_subset_equality(told, save.locations);
    }
}

/// When the game is booted again, all visited locations are told once more.
pub proof fn law_locations_are_resent_after_boot(save: SaveDataView)
    requires
        save.locations.len() > 0,
    ensures
        owes_report(Some(save), 0, true),
{
}

/// How many elements of `s` meet a condition.
pub open spec fn occurrences<A>(s: Seq<A>, condition: spec_fn(A) -> bool) -> nat
    decreases s.len(),
{
    if s.len() == 0 {
        0
    } else {
        occurrences(s.drop_last(), condition) + (if condition(s.last()) {
            1nat
        } else {
            0nat
        })
    }
}

proof fn lemma_occurrences_add_up<A>(a: Seq<A>, b: Seq<A>, condition: spec_fn(A) -> bool)
    ensures
        occurrences(a + b, condition) == occurrences(a, condition) + occurrences(b, condition),
    decreases b.len(),
{
    if b.len() == 0 {
        assert(a + b =~= a);
    } else {
        lemma_occurrences_add_up(a, b.drop_last(), condition);
        assert((a + b).drop_last() =~= a + b.drop_last());
    }
}

proof fn lemma_occurrences_in_actions(
    item: InventoryItem,
    condition: spec_fn(InventoryAction) -> bool,
)
    ensures
        ({
            let actions = item_actions(item);
            occurrences(actions, condition) == (if actions.len() > 0 && condition(actions[0]) {
                1nat
            } else {
                0nat
            }) + (if actions.len() > 1 && condition(actions[1]) {
                1nat
            } else {
                0nat
            })
        }),
{
    let actions = item_actions(item);
    reveal_with_fuel(occurrences, 3);
    if actions.len() == 2 {
        assert(actions.drop_last().drop_last() =~= Seq::<InventoryAction>::empty());
    }
}

/// The player gets an item exactly as often as there are placeholders for it
/// that are not those for Path of the Dragon, in whatever table they stand.
pub proof fn law_items_are_given(items: Seq<InventoryItem>, stack: ItemStack)
    ensures
        occurrences(
            inventory_actions(items),
            |action: InventoryAction| action == (InventoryAction::GiveItem { stack }),
        ) == occurrences(
            items,
            |item: InventoryItem|
                item.row is Some && item.row->0.item == Some(stack) && item.row->0.goods_icon
                    != Some(7039i16),
        ),
    decreases items.len(),
{
    if items.len() > 0 {
        let gives = |action: InventoryAction| action == (InventoryAction::GiveItem { stack });
        law_items_are_given(items.drop_last(), stack);
        lemma_occurrences_add_up(
            inventory_actions(items.drop_last()),
            item_actions(items.last()),
            gives,
        );
        lemma_occurrences_in_actions(items.last(), gives);
    }
}

/// The player gets the gesture exactly as often as there are placeholders with
/// its icon, whatever else those say, and no other gesture.
pub proof fn law_gestures_are_acquired(items: Seq<InventoryItem>, gesture: u32)
    ensures
        occurrences(
            inventory_actions(items),
            |action: InventoryAction| action == (InventoryAction::AcquireGesture { gesture }),
        ) == (if gesture == 29 {
            occurrences(
                items,
                |item: InventoryItem| item.row is Some && item.row->0.goods_icon == Some(7039i16),
            )
        } else {
            0
        }),
    decreases items.len(),
{
    if items.len() > 0 {
        let acquires = |action: InventoryAction|
            action == (InventoryAction::AcquireGesture { gesture });
        law_gestures_are_acquired(items.drop_last(), gesture);
        lemma_occurrences_add_up(
            inventory_actions(items.drop_last()),
            item_actions(items.last()),
            acquires,
        );
        lemma_occurrences_in_actions(items.last(), acquires);
    }
}

/// Each placeholder is taken out of the inventory once for each time that it is
/// there, one at a time, and nothing else is.
pub proof fn law_each_placeholder_is_removed(items: Seq<InventoryItem>, stack: ItemStack)
    ensures
        occurrences(
            inventory_actions(items),
            |action: InventoryAction| action == (InventoryAction::RemoveItem { stack }),
        ) == (if stack.quantity == 1 {
            occurrences(items, |item: InventoryItem| item.row is Some && item.id == stack.id)
        } else {
            0
        }),
    decreases items.len(),
{
    if items.len() > 0 {
        let removes = |action: InventoryAction| action == (InventoryAction::RemoveItem { stack });
        law_each_placeholder_is_removed(items.drop_last(), stack);
        lemma_occurrences_add_up(
            inventory_actions(items.drop_last()),
            item_actions(items.last()),
            removes,
        );
        lemma_occurrences_in_actions(items.last(), removes);
    }
}

/// The items of the inventory are dealt with one after another, and a
/// placeholder goes only after the player got what it stands for.
pub proof fn law_inventory_is_dealt_with_in_order(
    a: Seq<InventoryItem>,
    b: Seq<InventoryItem>,
    item: InventoryItem,
)
    ensures
        inventory_actions(a + b) == inventory_actions(a) + inventory_actions(b),
        item.row is None ==> inventory_actions(seq![item]).len() == 0,
        item.row is Some ==> inventory_actions(seq![item]).len() > 0 && inventory_actions(
            seq![item],
        ).last() == (InventoryAction::RemoveItem {
            stack: ItemStack { id: item.id, quantity: 1 },
        }),
    decreases b.len(),
{
    reveal_with_fuel(inventory_actions, 2);
    assert(seq![item].drop_last() =~= Seq::<InventoryItem>::empty());
    assert(Seq::<InventoryAction>::empty() + item_actions(item) =~= item_actions(item));
    if b.len() == 0 {
        assert(a + b =~= a);
        assert(inventory_actions(a) + Seq::<InventoryAction>::empty() =~= inventory_actions(a));
    } else {
        law_inventory_is_dealt_with_in_order(a, b.drop_last(), item);
        assert((a + b).drop_last() =~= a + b.drop_last());
        assert(inventory_actions(a + b) =~= inventory_actions(a) + inventory_actions(b));
    }
}

/// A report is owed exactly to a server that can be reached and was told of
/// fewer locations than the save has.
pub proof fn law_when_a_report_is_owed(save: SaveDataView, sent: usize)
    ensures
        owes_report(Some(save), sent, true) <==> sent < save.locations.len(),
        !owes_report(Some(save), sent, false),
        !owes_report(None, sent, true),
{
}

/// A location counts as visited exactly if it did before or if a placeholder
/// for it is in the inventory. In particular none is ever forgotten.
pub proof fn law_locations_are_those_found(
    locations: Set<i64>,
    items: Seq<InventoryItem>,
    location: i64,
)
    ensures
        locations_with(locations, items).contains(location) <==> {
            ||| locations.contains(location)
            ||| exists|i: int|
                0 <= i < items.len() && ((#[trigger] items[i]).row matches Some(row)
                    && row.location == location)
        },
    decreases items.len(),
{
    if items.len() > 0 {
        let before = items.drop_last();
        law_locations_are_those_found(locations, before, location);
        assert(forall|i: int|
            #![trigger before[i]]
            #![trigger items[i]]
            0 <= i < before.len() ==> before[i] == items[i]);
        assert(items.last() == items[items.len() - 1]);
    }
}

/// Each placeholder is taken out of the inventory, and nothing else is.
pub proof fn law_placeholders_are_removed(items: Seq<InventoryItem>)
    ensures
        forall|stack: ItemStack|
            #[trigger] inventory_actions(items).contains(InventoryAction::RemoveItem { stack })
                <==> stack.quantity == 1 && exists|i: int|
                0 <= i < items.len() && (#[trigger] items[i]).id == stack.id
                    && items[i].row is Some,
    decreases items.len(),
{
    if items.len() > 0 {
        let before = items.drop_last();
        law_placeholders_are_removed(before);
        let old_actions = inventory_actions(before);
        let new_actions = item_actions(items.last());
        let all = old_actions + new_actions;
        assert(inventory_actions(items) == all);
        assert(forall|i: int|
            #![trigger before[i]]
            #![trigger items[i]]
            0 <= i < before.len() ==> before[i] == items[i]);
        assert(items.last() == items[items.len() - 1]);
        assert forall|stack: ItemStack|
            #[trigger] inventory_actions(items).contains(InventoryAction::RemoveItem { stack })
                <==> stack.quantity == 1 && exists|i: int|
                0 <= i < items.len() && (#[trigger] items[i]).id == stack.id
                    && items[i].row is Some by {
            let remove = InventoryAction::RemoveItem { stack };
            if old_actions.contains(remove) {
                let j = old_actions.index_of(remove);
                assert(all[j] == remove);
            }
            if items.last().row is Some && items.last().id == stack.id && stack.quantity == 1 {
                assert(all[all.len() - 1] == remove);
            }
            if all.contains(remove) {
                let j = choose|j: int| 0 <= j < all.len() && all[j] == remove;
                if j < old_actions.len() {
                    assert(old_actions[j] == remove);
                } else {
                    assert(new_actions[j - old_actions.len()] == remove);
                }
            }
        }
    }
}

} // verus!
