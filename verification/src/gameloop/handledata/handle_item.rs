use vstd::prelude::*;

use crate::containers::entity::player_data::{IsUsingType, UserAccess};
use crate::containers::entity::shared_data::DeathType;
use crate::gametypes::error::AscendingError;
use crate::gametypes::enums::MapPosDir;
use crate::gametypes::position::{on_map, spec_distance, spec_position_offset, Position};
use crate::gametypes::{EQUIPMENT_TYPE_MAX, MAX_INV, MAX_STORAGE};
use crate::identity::GlobalKey;
use crate::items::item::Item;
use crate::maps::mapitem::MapItem;
use crate::time_ext::MyInstant;

verus! {

/// The player may act: alive and neither attacking nor stunned.
pub open spec fn can_act(death: DeathType, attacking: bool, stunned: bool) -> bool {
    death is Alive && !attacking && !stunned
}

/// Using an item: allowed for an acting, idle player whose item cooldown has
/// passed; gives the new cooldown end, 250 ms from now.
pub fn use_item_gate(
    death: DeathType,
    using: IsUsingType,
    attacking: bool,
    stunned: bool,
    itemtimer: MyInstant,
    tick: MyInstant,
) -> (r: Option<MyInstant>)
    requires
        tick.0 + 250 <= u64::MAX,
    ensures
        r == (if can_act(death, attacking, stunned) && using is Idle && itemtimer.0 <= tick.0 {
            Some(MyInstant((tick.0 + 250) as u64))
        } else {
            None
        }),
{
    if !death.is_alive() || using.inuse() || attacking || stunned || itemtimer.0 > tick.0 {
        return None;
    }
    Some(tick.add_millis(250))
}

/// Taking off equipment `slot`: allowed for an acting, idle player whose
/// item cooldown has passed, when the slot exists and holds something.
pub fn unequip_allowed(
    death: DeathType,
    using: IsUsingType,
    attacking: bool,
    stunned: bool,
    itemtimer: MyInstant,
    tick: MyInstant,
    equipment: &Vec<Item>,
    slot: usize,
) -> (r: bool)
    requires
        equipment@.len() == EQUIPMENT_TYPE_MAX,
    ensures
        r == (can_act(death, attacking, stunned) && using is Idle && itemtimer.0 <= tick.0
            && slot < EQUIPMENT_TYPE_MAX && equipment@[slot as int].val != 0),
{
    if !death.is_alive() || using.inuse() || attacking || stunned || itemtimer.0 > tick.0 {
        return false;
    }
    if slot >= EQUIPMENT_TYPE_MAX || equipment[slot].val == 0 {
        return false;
    }
    true
}

/// What moving a stack between two slots does.
#[derive(Copy, Clone, Debug, PartialEq, Eq, Structural)]
pub enum SlotSwitch {
    /// The request is not acted on.
    Ignore,
    /// Same item in both slots: move this amount onto the target stack.
    Merge(u16),
    /// Exchange the two slots.
    Swap,
    /// Different items and only part of the stack moved: refuse with a message.
    Reject,
}

/// The move decided by the contents of the two slots: onto an empty slot, or
/// the whole stack onto a different item, swaps; onto the same item, merges
/// the requested amount (capped at the stack); a part onto a different item
/// is refused.
pub open spec fn spec_slot_switch(from: Item, to: Item, amount: u16) -> SlotSwitch {
    let moved = if amount < from.val { amount } else { from.val };
    if to.val > 0 {
        if to.num == from.num {
            SlotSwitch::Merge(moved)
        } else if from.val == moved {
            SlotSwitch::Swap
        } else {
            SlotSwitch::Reject
        }
    } else {
        SlotSwitch::Swap
    }
}

/// Moving a stack within the bag: an acting player, with the item cooldown
/// passed and not trading, between two existing slots of which the first holds
/// something.
pub fn plan_switch_inv_slot(
    death: DeathType,
    using: IsUsingType,
    attacking: bool,
    stunned: bool,
    itemtimer: MyInstant,
    tick: MyInstant,
    inventory: &Vec<Item>,
    oldslot: usize,
    newslot: usize,
    amount: u16,
) -> (r: SlotSwitch)
    requires
        inventory@.len() == MAX_INV,
    ensures
        r == (if !can_act(death, attacking, stunned) || itemtimer.0 > tick.0 || using is Trading
            || oldslot >= MAX_INV || newslot >= MAX_INV || inventory@[oldslot as int].val == 0 {
            SlotSwitch::Ignore
        } else {
            spec_slot_switch(inventory@[oldslot as int], inventory@[newslot as int], amount)
        }),
{
    if !death.is_alive() || attacking || stunned || itemtimer.0 > tick.0 || using.is_trading() {
        return SlotSwitch::Ignore;
    }
    if oldslot >= MAX_INV || newslot >= MAX_INV || inventory[oldslot].val == 0 {
        return SlotSwitch::Ignore;
    }
    slot_switch(inventory[oldslot], inventory[newslot], amount)
}

fn slot_switch(from: Item, to: Item, amount: u16) -> (r: SlotSwitch)
    ensures
        r == spec_slot_switch(from, to, amount),
{
    let moved = if amount < from.val { amount } else { from.val };
    if to.val > 0 {
        if to.num == from.num {
            SlotSwitch::Merge(moved)
        } else if from.val == moved {
            SlotSwitch::Swap
        } else {
            SlotSwitch::Reject
        }
    } else {
        SlotSwitch::Swap
    }
}

/// Moving a stack within the bank: an acting player at the bank. The choice
/// is made from the bag's stacks in the two slot numbers,
/// and applies to the bank slots.
pub fn plan_switch_storage_slot(
    death: DeathType,
    using: IsUsingType,
    attacking: bool,
    stunned: bool,
    inventory: &Vec<Item>,
    oldslot: usize,
    newslot: usize,
    amount: u16,
) -> (r: SlotSwitch)
    requires
        death is Alive && using is Bank && !attacking && !stunned
            ==> oldslot < inventory@.len() && newslot < inventory@.len(),
    ensures
        r == (if !(death is Alive && using is Bank && !attacking && !stunned)
            || newslot >= MAX_STORAGE || inventory@[oldslot as int].val == 0 {
            SlotSwitch::Ignore
        } else {
            spec_slot_switch(inventory@[oldslot as int], inventory@[newslot as int], amount)
        }),
{
    if !death.is_alive() || !using.is_bank() || attacking || stunned {
        return SlotSwitch::Ignore;
    }
    let old_slot = inventory[oldslot];
    let new_slot = inventory[newslot];
    if newslot >= MAX_STORAGE || old_slot.val == 0 {
        return SlotSwitch::Ignore;
    }
    slot_switch(old_slot, new_slot, amount)
}

/// Exchanges the stacks in two slots.
pub fn swap_slots(items: &mut Vec<Item>, a: usize, b: usize)
    requires
        a < old(items)@.len(),
        b < old(items)@.len(),
    ensures
        final(items)@ == old(items)@.update(a as int, old(items)@[b as int]).update(b as int, old(items)@[a as int]),
        final(items)@.to_multiset() == old(items)@.to_multiset(),
        forall|n: u32| #[trigger] item_total(final(items)@, n) == item_total(old(items)@, n),
{
    let item_a = items[a];
    let item_b = items[b];
    items.set(b, item_a);
    items.set(a, item_b);
    assert(items@ =~= old(items)@.update(a as int, old(items)@[b as int]).update(b as int, old(items)@[a as int]));
    proof {
        lemma_swap_keeps_stacks(old(items)@, a as int, b as int);
        assert forall|n: u32| #[trigger] item_total(items@, n) == item_total(old(items)@, n) by {
            lemma_swap_keeps_totals(old(items)@, a as int, b as int, n);
        }
    }
}

/// Moving a stack within the bag, as far as the bag's slots go: decides the
/// move (see `plan_switch_inv_slot`) and carries out a swap. Any other
/// outcome leaves the bag as it is (a merge is done by the caller with the
/// item's stack limit). Either way only the two slots may change and the
/// bag holds as much of every item as before.
pub fn switch_inv_slot(
    death: DeathType,
    using: IsUsingType,
    attacking: bool,
    stunned: bool,
    itemtimer: MyInstant,
    tick: MyInstant,
    inventory: &mut Vec<Item>,
    oldslot: usize,
    newslot: usize,
    amount: u16,
) -> (r: SlotSwitch)
    requires
        old(inventory)@.len() == MAX_INV,
    ensures
        r == (if !can_act(death, attacking, stunned) || itemtimer.0 > tick.0 || using is Trading
            || oldslot >= MAX_INV || newslot >= MAX_INV || old(inventory)@[oldslot as int].val == 0 {
            SlotSwitch::Ignore
        } else {
            spec_slot_switch(old(inventory)@[oldslot as int], old(inventory)@[newslot as int], amount)
        }),
        final(inventory)@ == (if r is Swap {
            old(inventory)@.update(newslot as int, old(inventory)@[oldslot as int]).update(
                oldslot as int, old(inventory)@[newslot as int])
        } else {
            old(inventory)@
        }),
        forall|n: u32| #[trigger] item_total(final(inventory)@, n) == item_total(old(inventory)@, n),
{
    let r = plan_switch_inv_slot(death, using, attacking, stunned, itemtimer, tick, inventory, oldslot, newslot, amount);
    if let SlotSwitch::Swap = r {
        swap_slots(inventory, newslot, oldslot);
    }
    r
}

/// How much of item `n` a stack holds.
pub open spec fn stack_amount(it: Item, n: u32) -> int {
    if it.num == n { it.val as int } else { 0 }
}

/// How much of item `n` the stacks hold together.
pub open spec fn item_total(items: Seq<Item>, n: u32) -> int
    decreases items.len(),
{
    if items.len() == 0 {
        0
    } else {
        item_total(items.drop_last(), n) + stack_amount(items.last(), n)
    }
}

proof fn lemma_total_update(items: Seq<Item>, i: int, x: Item, n: u32)
    requires
        0 <= i < items.len(),
    ensures
        item_total(items.update(i, x), n) == item_total(items, n) - stack_amount(items[i], n) + stack_amount(x, n),
    decreases items.len(),
{
    let u = items.update(i, x);
    if i == items.len() - 1 {
        assert(u.drop_last() =~= items.drop_last());
    } else {
        assert(u.drop_last() =~= items.drop_last().update(i, x));
        lemma_total_update(items.drop_last(), i, x, n);
    }
}

/// Exchanging two slots keeps how much of every item the bag holds.
pub proof fn lemma_swap_keeps_totals(items: Seq<Item>, a: int, b: int, n: u32)
    requires
        0 <= a < items.len(),
        0 <= b < items.len(),
    ensures
        item_total(items.update(a, items[b]).update(b, items[a]), n) == item_total(items, n),
{
    let once = items.update(a, items[b]);
    lemma_total_update(items, a, items[b], n);
    lemma_total_update(once, b, items[a], n);
}

/// Exchanging two slots keeps the stacks of the bag: only their places
/// change.
pub proof fn lemma_swap_keeps_stacks(items: Seq<Item>, a: int, b: int)
    requires
        0 <= a < items.len(),
        0 <= b < items.len(),
    ensures
        items.update(a, items[b]).update(b, items[a]).to_multiset() == items.to_multiset(),
{
    broadcast use vstd::seq_lib::to_multiset_update, vstd::seq_lib::to_multiset_contains,
        vstd::multiset::group_multiset_axioms, vstd::multiset::group_multiset_properties;
    assert(items.contains(items[a]));
    assert(items.to_multiset().count(items[a]) > 0);
    let once = items.update(a, items[b]);
    assert(once[b] == items[b]);
    let m = items.to_multiset();
    assert(once.to_multiset() == m.insert(items[b]).remove(items[a]));
    assert(once.update(b, items[a]).to_multiset() == once.to_multiset().insert(items[a]).remove(items[b]));
    assert(m.insert(items[b]).remove(items[a]).insert(items[a]).remove(items[b]) =~= m);
}

/// Swapping two slots twice gives the slots back.
pub proof fn lemma_swap_slots_involutive(items: Seq<Item>, a: int, b: int)
    requires
        0 <= a < items.len(),
        0 <= b < items.len(),
    ensures
        ({
            let once = items.update(a, items[b]).update(b, items[a]);
            once.update(a, once[b]).update(b, once[a]) =~= items
        }),
{
}

/// Where a transfer between bag and bank puts its stack.
#[derive(Copy, Clone, Debug, PartialEq, Eq)]
pub enum Transfer {
    Ignore,
    /// The target slot is empty: the stack goes there.
    IntoEmptySlot(Item),
    /// The target slot is taken: the stack is stacked where it fits.
    Stack(Item),
}

/// The stack to move: the source stack, cut down to `amount`.
pub open spec fn cut_to(item: Item, amount: u16) -> Item {
    if item.val > amount { Item { val: amount, ..item } } else { item }
}

/// Putting bag `inv_slot` into bank `bank_slot`, for an acting player at the
/// bank with a bank slot that exists and a bag stack that is not empty.
pub fn plan_deposit(
    death: DeathType,
    using: IsUsingType,
    attacking: bool,
    stunned: bool,
    inventory: &Vec<Item>,
    bank: &Vec<Item>,
    inv_slot: usize,
    bank_slot: usize,
    amount: u16,
) -> (r: Transfer)
    requires
        inventory@.len() == MAX_INV,
        bank@.len() == MAX_STORAGE,
        death is Alive && using is Bank && !attacking && !stunned && bank_slot < MAX_STORAGE ==> inv_slot < MAX_INV,
    ensures
        r == (if !(death is Alive && using is Bank && !attacking && !stunned) || bank_slot >= MAX_STORAGE
            || inventory@[inv_slot as int].val == 0 {
            Transfer::Ignore
        } else if bank@[bank_slot as int].val == 0 {
            Transfer::IntoEmptySlot(cut_to(inventory@[inv_slot as int], amount))
        } else {
            Transfer::Stack(cut_to(inventory@[inv_slot as int], amount))
        }),
{
    if !death.is_alive() || !using.is_bank() || attacking || stunned {
        return Transfer::Ignore;
    }
    if bank_slot >= MAX_STORAGE || inventory[inv_slot].val == 0 || inv_slot >= MAX_INV {
        return Transfer::Ignore;
    }
    let mut item = inventory[inv_slot];
    if item.val > amount {
        item.val = amount;
    }
    if bank[bank_slot].val == 0 {
        Transfer::IntoEmptySlot(item)
    } else {
        Transfer::Stack(item)
    }
}

/// Taking bank `bank_slot` into bag `inv_slot`, for an acting player at the
/// bank with both slots existing and a bank stack that is not empty.
pub fn plan_withdraw(
    death: DeathType,
    using: IsUsingType,
    attacking: bool,
    stunned: bool,
    inventory: &Vec<Item>,
    bank: &Vec<Item>,
    inv_slot: usize,
    bank_slot: usize,
    amount: u16,
) -> (r: Transfer)
    requires
        inventory@.len() == MAX_INV,
        bank@.len() == MAX_STORAGE,
    ensures
        r == (if !(death is Alive && using is Bank && !attacking && !stunned) || bank_slot >= MAX_STORAGE
            || bank@[bank_slot as int].val == 0 || inv_slot >= MAX_INV {
            Transfer::Ignore
        } else if inventory@[inv_slot as int].val == 0 {
            Transfer::IntoEmptySlot(cut_to(bank@[bank_slot as int], amount))
        } else {
            Transfer::Stack(cut_to(bank@[bank_slot as int], amount))
        }),
{
    if !death.is_alive() || !using.is_bank() || attacking || stunned {
        return Transfer::Ignore;
    }
    if bank_slot >= MAX_STORAGE || bank[bank_slot].val == 0 || inv_slot >= MAX_INV {
        return Transfer::Ignore;
    }
    let mut item = bank[bank_slot];
    if item.val > amount {
        item.val = amount;
    }
    if inventory[inv_slot].val == 0 {
        Transfer::IntoEmptySlot(item)
    } else {
        Transfer::Stack(item)
    }
}

/// How much of a slot an acting, idle player throws away: all of it, when
/// the slot exists and holds something.
pub fn delete_item_amount(
    death: DeathType,
    using: IsUsingType,
    attacking: bool,
    stunned: bool,
    inventory: &Vec<Item>,
    slot: usize,
) -> (r: Option<u16>)
    requires
        inventory@.len() == MAX_INV,
    ensures
        r == (if can_act(death, attacking, stunned) && using is Idle && slot < MAX_INV
            && inventory@[slot as int].val != 0 {
            Some(inventory@[slot as int].val)
        } else {
            None
        }),
{
    if !death.is_alive() || using.inuse() || attacking || stunned {
        return None;
    }
    if slot >= MAX_INV || inventory[slot].val == 0 {
        return None;
    }
    Some(inventory[slot].val)
}

/// How much of a bank slot an acting player at the bank throws away.
pub fn delete_storage_item_amount(
    death: DeathType,
    using: IsUsingType,
    attacking: bool,
    stunned: bool,
    bank: &Vec<Item>,
    slot: usize,
) -> (r: Option<u16>)
    requires
        bank@.len() == MAX_STORAGE,
    ensures
        r == (if can_act(death, attacking, stunned) && using is Bank && slot < MAX_STORAGE
            && bank@[slot as int].val != 0 {
            Some(bank@[slot as int].val)
        } else {
            None
        }),
{
    if !death.is_alive() || !using.is_bank() || attacking || stunned {
        return None;
    }
    if slot >= MAX_STORAGE || bank[slot].val == 0 {
        return None;
    }
    Some(bank[slot].val)
}

/// A drop request the server acts on.
#[derive(Copy, Clone, Debug, PartialEq, Eq)]
pub struct DropPlan {
    pub item: Item,
    pub amount: u16,
    pub pos: Position,
    /// When the item disappears; admins' drops stay.
    pub despawn: Option<MyInstant>,
    /// Until when only the owner may pick it up.
    pub ownertimer: Option<MyInstant>,
    pub ownerid: Option<GlobalKey>,
}

/// Dropping `amount` from bag `slot`: an acting, idle player, an existing
/// non-empty slot and a non-zero amount, capped at the stack. The drop
/// despawns after ten minutes (never for admins) and belongs to the player for
/// five seconds. A player standing on an unknown map is an error.
pub fn plan_drop_item(
    me: GlobalKey,
    death: DeathType,
    using: IsUsingType,
    attacking: bool,
    stunned: bool,
    access: UserAccess,
    inventory: &Vec<Item>,
    slot: usize,
    amount: u16,
    pos: Position,
    map_known: bool,
    tick: MyInstant,
) -> (r: Result<Option<DropPlan>, AscendingError>)
    requires
        inventory@.len() == MAX_INV,
        tick.0 + 600000 <= u64::MAX,
    ensures
        !(can_act(death, attacking, stunned) && using is Idle) || slot >= MAX_INV
            || inventory@[slot as int].val == 0 || amount == 0
            ==> r == Ok::<Option<DropPlan>, AscendingError>(None),
        can_act(death, attacking, stunned) && using is Idle && slot < MAX_INV
            && inventory@[slot as int].val != 0 && amount != 0 && !map_known
            ==> r == Err::<Option<DropPlan>, AscendingError>(AscendingError::Unhandled),
        can_act(death, attacking, stunned) && using is Idle && slot < MAX_INV
            && inventory@[slot as int].val != 0 && amount != 0 && map_known
            ==> r == Ok::<Option<DropPlan>, AscendingError>(Some(DropPlan {
                item: inventory@[slot as int],
                amount: if amount < inventory@[slot as int].val { amount } else { inventory@[slot as int].val },
                pos,
                despawn: if access == UserAccess::Admin { None } else { Some(MyInstant((tick.0 + 600000) as u64)) },
                ownertimer: Some(MyInstant((tick.0 + 5000) as u64)),
                ownerid: Some(me),
            })),
{
    if !death.is_alive() || using.inuse() || attacking || stunned {
        return Ok(None);
    }
    if slot >= MAX_INV || inventory[slot].val == 0 || amount == 0 {
        return Ok(None);
    }
    let amount = if amount < inventory[slot].val { amount } else { inventory[slot].val };
    if !map_known {
        return Err(AscendingError::Unhandled);
    }
    let despawn = match access {
        UserAccess::Admin => None,
        _ => Some(tick.add_millis(600000)),
    };
    Ok(Some(DropPlan {
        item: inventory[slot],
        amount,
        pos,
        despawn,
        ownertimer: Some(tick.add_millis(5000)),
        ownerid: Some(me),
    }))
}

/// Picking up: allowed for an acting, idle player whose pickup cooldown has
/// passed; gives the new cooldown end, 100 ms from now.
pub fn pickup_gate(
    death: DeathType,
    using: IsUsingType,
    attacking: bool,
    stunned: bool,
    mapitemtimer: MyInstant,
    tick: MyInstant,
) -> (r: Option<MyInstant>)
    requires
        tick.0 + 100 <= u64::MAX,
    ensures
        r == (if can_act(death, attacking, stunned) && using is Idle && mapitemtimer.0 <= tick.0 {
            Some(MyInstant((tick.0 + 100) as u64))
        } else {
            None
        }),
{
    if !death.is_alive() || using.inuse() || attacking || stunned || mapitemtimer.0 > tick.0 {
        return None;
    }
    Some(tick.add_millis(100))
}

/// An item lying at `item_pos` on the map that lies in direction `dir` from
/// the player's is within one tile of the player at `pos`.
pub open spec fn in_pickup_reach(pos: Position, item_pos: Position, dir: MapPosDir) -> bool {
    spec_distance(pos, spec_position_offset(item_pos, dir)) <= 1
}

/// The indices, in order, of the items of a neighbouring (or the same) map
/// that a player at `pos` can pick up.
pub fn pickup_in_reach(pos: Position, dir: MapPosDir, items: &Vec<MapItem>) -> (r: Vec<usize>)
    requires
        on_map(pos),
        forall|i: int| 0 <= i < items@.len() ==> on_map(#[trigger] items@[i].pos),
    ensures
        forall|k: int| 0 <= k < r@.len() ==> r@[k] < items@.len() && in_pickup_reach(pos, items@[r@[k] as int].pos, dir),
        forall|i: int| 0 <= i < items@.len() && in_pickup_reach(pos, items@[i].pos, dir) ==> r@.contains(i as usize),
        forall|k: int, l: int| 0 <= k < l < r@.len() ==> r@[k] < r@[l],
{
    let mut r: Vec<usize> = Vec::new();
    let mut i: usize = 0;
    while i < items.len()
        invariant
            i <= items@.len(),
            on_map(pos),
            forall|j: int| 0 <= j < items@.len() ==> on_map(#[trigger] items@[j].pos),
            forall|k: int| 0 <= k < r@.len() ==> r@[k] < i && in_pickup_reach(pos, items@[r@[k] as int].pos, dir),
            forall|j: int| 0 <= j < i && in_pickup_reach(pos, items@[j].pos, dir) ==> r@.contains(j as usize),
            forall|k: int, l: int| 0 <= k < l < r@.len() ==> r@[k] < r@[l],
        decreases items@.len() - i,
    {
        let ghost before = r@;
        let seen = items[i].pos.map_offset(dir);
        if pos.checkdistance(seen) <= 1 {
            r.push(i);
            assert(r@[r@.len() - 1] == i);
        }
        proof {
            assert forall|j: int| 0 <= j < i + 1 && in_pickup_reach(pos, items@[j].pos, dir) implies r@.contains(j as usize) by {
                if j < i {
                    assert(before.contains(j as usize));
                    let k = choose|k: int| 0 <= k < before.len() && before[k] == j as usize;
                    assert(r@[k] == j as usize);
                } else {
                    assert(r@[r@.len() - 1] == j as usize);
                }
            }
        }
        i += 1;
    }
    r
}

/// What picking up one lying stack of items comes to.
#[derive(Copy, Clone, Debug, PartialEq, Eq, Structural)]
pub enum PickupResult {
    /// No room at all: "Your inventory is Full!" once, the stack stays.
    InventoryFull,
    /// Some was taken and `left` stays on the ground; the bag is now full.
    Partial { taken: u16, left: u16 },
    /// The whole stack was taken and leaves the map.
    Whole { taken: u16 },
}

/// The outcome of giving a lying stack of `start` items to a player whose
/// bag can take `amount` of them (`has_room` false when it takes none).
pub fn pickup_result(has_room: bool, amount: u16, start: u16) -> (r: PickupResult)
    requires
        has_room ==> amount <= start,
    ensures
        r == (if !has_room {
            PickupResult::InventoryFull
        } else if amount != start {
            PickupResult::Partial { taken: amount, left: (start - amount) as u16 }
        } else {
            PickupResult::Whole { taken: amount }
        }),
{
    if !has_room {
        PickupResult::InventoryFull
    } else if amount != start {
        PickupResult::Partial { taken: amount, left: start - amount }
    } else {
        PickupResult::Whole { taken: amount }
    }
}

/// What picking up a lying stack of money (item number 0) comes to once the
/// player was given its value and `rem` could not be taken: nothing left,
/// and the stack leaves the map; or the stack stays holding the rest, cut
/// to 16 bits as the stack amount is stored.
pub fn money_left(rem: u64) -> (r: Option<u16>)
    ensures
        r == (if rem == 0 { None } else { Some((rem % 0x1_0000) as u16) }),
{
    if rem == 0 {
        None
    } else {
        Some((rem % 0x1_0000) as u16)
    }
}

/// The plural ending of an item name in a pickup message: none for zero or
/// one item, "'s" otherwise.
pub fn plural_suffix(amount: u16) -> (r: &'static str)
    ensures
        r@ == (if amount <= 1 { ""@ } else { "'s"@ }),
{
    if amount <= 1 { "" } else { "'s" }
}

} // verus!
