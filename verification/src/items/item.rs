use vstd::prelude::*;

verus! {

/// An item stack: item index, amount held, level and per-item data.
#[derive(Copy, Clone, Debug, PartialEq, Eq)]
pub struct Item {
    pub num: u32,
    pub val: u16,
    pub level: u8,
    pub data: [i16; 5],
}

/// The empty stack: item 0, amount 0, level 1, zeroed data.
pub open spec fn empty_item() -> Item {
    Item { num: 0, val: 0, level: 1, data: [0i16, 0i16, 0i16, 0i16, 0i16] }
}

impl Default for Item {
    fn default() -> (r: Item)
        ensures
            r == empty_item(),
    {
        Item { num: 0, val: 0, level: 1, data: [0, 0, 0, 0, 0] }
    }
}

impl Item {
    /// An empty stack of item `num`.
    pub fn new(num: u32) -> (r: Item)
        ensures
            r == (Item { num, ..empty_item() }),
    {
        Item { num, val: 0, level: 1, data: [0, 0, 0, 0, 0] }
    }
}

/// `a - b`, or 0 when `b` exceeds `a`.
pub open spec fn sat_sub(a: int, b: int) -> int {
    if a > b { a - b } else { 0 }
}

/// The stack amount and leftover after moving `add` into `val` under `max`.
pub open spec fn spec_val_add_rem(val: u16, add: u16, max: u16) -> (u16, u16) {
    if val >= max {
        (val, add)
    } else if val + add <= max {
        ((val + add) as u16, 0u16)
    } else {
        (max, (val + add - max) as u16)
    }
}

/// Stack amount, source amount and returned leftover after moving up to
/// `add` from `val2` into `val1` under `max`.
pub open spec fn spec_val_add_amount_rem(val1: u16, val2: u16, add: u16, max: u16) -> (u16, u16, u16) {
    if val1 >= max {
        (val1, val2, add)
    } else if val1 + add <= max {
        ((val1 + add) as u16, sat_sub(val2 as int, add as int) as u16, 0u16)
    } else {
        (max, sat_sub(val2 as int, max - val1) as u16, (val1 + add - max) as u16)
    }
}

/// Moves as much of `add` into `val` as fits under `max`; `add` keeps what
/// did not fit, and is returned. A `val` already at or over `max` takes none.
pub fn val_add_rem(val: &mut u16, add: &mut u16, max: u16) -> (r: u16)
    ensures
        (*final(val), *final(add)) == spec_val_add_rem(*old(val), *old(add), max),
        r == *final(add),
{
    let rem = max.saturating_sub(*val);

    if rem > 0 {
        if rem >= *add {
            *val = val.saturating_add(*add);
            *add = 0;
        } else {
            *val = max;
            *add = add.saturating_sub(rem);
        }
    }

    *add
}

/// Moves up to `add` from `val2` into `val1`, as much as fits under `max`.
/// Returns the part of `add` that did not fit. `val2` loses what moved
/// (never going below 0).
pub fn val_add_amount_rem(val1: &mut u16, val2: &mut u16, add: u16, max: u16) -> (r: u16)
    ensures
        (*final(val1), *final(val2), r) == spec_val_add_amount_rem(*old(val1), *old(val2), add, max),
{
    let rem = max.saturating_sub(*val1);

    if rem > 0 {
        if rem >= add {
            *val1 = val1.saturating_add(add);
            *val2 = val2.saturating_sub(add);
            return 0;
        } else {
            *val1 = max;
            *val2 = val2.saturating_sub(rem);
            return add.saturating_sub(rem);
        }
    }

    add
}

/// Filling a stack loses nothing and makes nothing: what the stack gains is
/// exactly what leaves `add`, and a stack that started below `max` ends at
/// most at `max`, with nothing left over unless it is full.
pub proof fn lemma_val_add_rem_conserves(val: u16, add: u16, max: u16)
    ensures
        spec_val_add_rem(val, add, max).0 + spec_val_add_rem(val, add, max).1 == val + add,
        val < max ==> spec_val_add_rem(val, add, max).0 <= max,
        val < max ==> (spec_val_add_rem(val, add, max).1 > 0 ==> spec_val_add_rem(val, add, max).0 == max),
{
}

/// Moving between two stacks conserves the moved amount: what `val1` gains
/// plus what is returned is `add`, and `val2` drops by the gain (floored at 0).
pub proof fn lemma_val_add_amount_rem_conserves(val1: u16, val2: u16, add: u16, max: u16)
    ensures
        ({
            let (n1, n2, left) = spec_val_add_amount_rem(val1, val2, add, max);
            &&& n1 - val1 + left == add || val1 >= max
            &&& n1 >= val1
            &&& n2 == sat_sub(val2 as int, n1 - val1)
            &&& val1 < max ==> n1 <= max
        }),
{
}

} // verus!
