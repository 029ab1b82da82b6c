use vstd::prelude::*;

use crate::gametypes::enums::WorldEntityType;
use crate::gametypes::map_position::{map_offsets_fit, MapPosition};
use crate::gametypes::position::{on_map, spec_new_offset, Position};
use crate::identity::GlobalKey;
use crate::items::item::{empty_item, sat_sub, Item};
use crate::items::itemdata::ItemData;
use crate::maps::actor::{spec_blocked_tile, MapActor};
use crate::maps::grid::{grids_well_formed, spec_tile};
use crate::maps::map::{contains_map, GridTile};
use crate::time_ext::MyInstant;

verus! {

/// An item spawn point on a map and when it next spawns.
#[derive(Copy, Clone, Debug, PartialEq, Eq, Structural)]
pub struct SpawnItemData {
    pub index: u32,
    pub amount: u16,
    pub pos: Position,
    pub timer_set: u64,
    pub timer: MyInstant,
}

/// An item a player asks to drop: who drops it, which item, how many, where.
#[derive(Copy, Clone, Debug, PartialEq, Eq, Structural)]
pub struct DropItem {
    pub player: GlobalKey,
    pub index: u32,
    pub amount: u16,
    pub pos: Position,
}

/// An item lying on a map.
#[derive(Copy, Clone, Debug, PartialEq, Eq)]
pub struct MapItem {
    pub key: GlobalKey,
    pub item: Item,
    pub despawn: Option<MyInstant>,
    pub ownertimer: Option<MyInstant>,
    pub ownerid: Option<GlobalKey>,
    pub pos: Position,
}

impl MapItem {
    /// An empty lying item of kind `num`, at the origin, with no timers,
    /// owner or key.
    pub fn new(num: u32) -> (r: MapItem)
        ensures
            r.item == (Item { num, ..empty_item() }),
            r.key.0 == crate::identity::null_key_value(),
            r.despawn is None,
            r.ownertimer is None,
            r.ownerid is None,
            r.pos == (Position { x: 0, y: 0, map: MapPosition { x: 0, y: 0, group: 0 } }),
    {
        MapItem {
            key: GlobalKey::null(),
            item: Item::new(num),
            despawn: None,
            ownertimer: None,
            ownerid: None,
            pos: Position::default(),
        }
    }

    /// A lying item with the given contents and timers, not yet keyed.
    pub fn new_with(
        item: Item,
        pos: Position,
        despawn: Option<MyInstant>,
        ownerid: Option<GlobalKey>,
        ownertimer: Option<MyInstant>,
    ) -> (r: MapItem)
        ensures
            r == (MapItem { key: GlobalKey(crate::identity::null_key_value()), item, despawn, ownertimer, ownerid, pos }),
    {
        MapItem { item, despawn, ownertimer, ownerid, pos, key: GlobalKey::null() }
    }
}

/// Locks a map holds until the event with its id asks for it, so that the
/// same item cannot be taken twice or copied across maps.
#[derive(Copy, Clone, Debug, PartialEq, Eq)]
pub enum MapClaims {
    Nothing,
    ItemDrop { item: DropItem, requests_sent: usize },
    ItemPickup(MapItem),
    Tile(Position),
}

/// The `i`-th cell (0..9) of the 3x3 block around `p`, column by column.
pub open spec fn drop_cell_x(p: Position, i: int) -> int {
    p.x - 1 + i / 3
}

pub open spec fn drop_cell_y(p: Position, i: int) -> int {
    p.y - 1 + i % 3
}

/// The `i`-th cell when it lies on `p`'s map.
pub open spec fn checked_cell(p: Position, i: int) -> Option<Position> {
    let x = drop_cell_x(p, i);
    let y = drop_cell_y(p, i);
    if 0 <= x < 32 && 0 <= y < 32 {
        Some(Position { x: x as i32, y: y as i32, map: p.map })
    } else {
        None
    }
}

/// The `i`-th cell wrapped onto a neighbouring map, unless that is `own`.
pub open spec fn offset_cell(p: Position, i: int, own: MapPosition) -> Option<Position> {
    let q = spec_new_offset(drop_cell_x(p, i) as i32, drop_cell_y(p, i) as i32, p.map);
    if q.map == own { None } else { Some(q) }
}

/// The `i`-th cell considered: on the drop map, or, in the wrapping pass,
/// on a neighbouring map.
pub open spec fn drop_candidate(p: Position, i: int, own: MapPosition, wrapping: bool) -> Option<Position> {
    if wrapping { offset_cell(p, i, own) } else { checked_cell(p, i) }
}

/// A candidate where a new pile may go: the drop tile holds no item and the
/// candidate does not block items.
pub open spec fn free_candidate(g: Map<(i32, i32, i32), Seq<GridTile>>, drop: DropItem, i: int, own: MapPosition, wrapping: bool) -> Option<Position> {
    match drop_candidate(drop.pos, i, own, wrapping) {
        Some(q) => match spec_tile(g, drop.pos) {
            Some(t) => if t.item is None && !spec_blocked_tile(g, q, WorldEntityType::MapItem) { Some(q) } else { None },
            None => None,
        },
        None => None,
    }
}

/// The first free candidate from cell `i` on.
pub open spec fn first_free(g: Map<(i32, i32, i32), Seq<GridTile>>, drop: DropItem, own: MapPosition, wrapping: bool, i: int) -> Option<Position>
    decreases 9 - i,
{
    if i >= 9 || i < 0 {
        None
    } else {
        match free_candidate(g, drop, i, own, wrapping) {
            Some(q) => Some(q),
            None => first_free(g, drop, own, wrapping, i + 1),
        }
    }
}

/// The pile on the drop tile can take more of the dropped item: it is the
/// same kind and below `limit`. Gives its key and room left.
pub open spec fn stack_room(g: Map<(i32, i32, i32), Seq<GridTile>>, drop: DropItem, limit: u16) -> Option<(GlobalKey, u16)> {
    match spec_tile(g, drop.pos) {
        Some(t) => match t.item {
            Some(it) => if it.1 == drop.index && it.2 < limit { Some((it.0, (limit - it.2) as u16)) } else { None },
            None => None,
        },
        None => None,
    }
}

/// Stacking targets from cell `i` on, each offered the pile's room, until
/// `leftover` is covered; with what is still left.
pub open spec fn stack_fill(
    g: Map<(i32, i32, i32), Seq<GridTile>>,
    drop: DropItem,
    own: MapPosition,
    wrapping: bool,
    limit: u16,
    i: int,
    leftover: int,
) -> (Seq<(Position, Option<(GlobalKey, u16)>)>, int)
    decreases 9 - i,
{
    if i >= 9 || i < 0 {
        (seq![], leftover)
    } else {
        match (drop_candidate(drop.pos, i, own, wrapping), stack_room(g, drop, limit)) {
            (Some(q), Some(room)) => {
                let left = sat_sub(leftover, room.1 as int);
                if left == 0 {
                    (seq![(q, Some(room))], 0)
                } else {
                    let rest = stack_fill(g, drop, own, wrapping, limit, i + 1, left);
                    (seq![(q, Some(room))] + rest.0, rest.1)
                }
            },
            _ => stack_fill(g, drop, own, wrapping, limit, i + 1, leftover),
        }
    }
}

/// The candidate cells from cell `i` on that exist, in order.
pub open spec fn candidate_list(p: Position, own: MapPosition, wrapping: bool, i: int) -> Seq<Position>
    decreases 9 - i,
{
    if i < 0 || i >= 9 {
        seq![]
    } else {
        match drop_candidate(p, i, own, wrapping) {
            Some(q) => seq![q] + candidate_list(p, own, wrapping, i + 1),
            None => candidate_list(p, own, wrapping, i + 1),
        }
    }
}

/// What stacking from cell `i` on comes to, said directly: with no pile to
/// stack on, nothing and all is left; otherwise the first candidates in
/// order, each offered the pile's room, as few as cover what is to place
/// (all of them when they do not), and what is left is what the room of the
/// targets does not cover.
pub proof fn lemma_stack_fill_direct(
    g: Map<(i32, i32, i32), Seq<GridTile>>,
    drop: DropItem,
    own: MapPosition,
    wrapping: bool,
    limit: u16,
    i: int,
    leftover: int,
)
    requires
        leftover >= 0,
    ensures
        ({
            let (targets, left) = stack_fill(g, drop, own, wrapping, limit, i, leftover);
            let cands = candidate_list(drop.pos, own, wrapping, i);
            match stack_room(g, drop, limit) {
                None => targets.len() == 0 && left == leftover,
                Some(room) => {
                    &&& targets.len() <= cands.len()
                    &&& forall|k: int| 0 <= k < targets.len() ==> #[trigger] targets[k] == (cands[k], Some(room))
                    &&& left == sat_sub(leftover, targets.len() * room.1)
                    &&& left > 0 ==> targets.len() == cands.len()
                    &&& targets.len() > 1 ==> (targets.len() - 1) * room.1 < leftover
                },
            }
        }),
    decreases 9 - i,
{
    if i >= 9 || i < 0 {
    } else {
        match (drop_candidate(drop.pos, i, own, wrapping), stack_room(g, drop, limit)) {
            (Some(q), Some(room)) => {
                let r = room.1 as int;
                assert(r >= 1);
                let left1 = sat_sub(leftover, r);
                let cands = candidate_list(drop.pos, own, wrapping, i);
                assert(cands == seq![q] + candidate_list(drop.pos, own, wrapping, i + 1));
                if left1 == 0 {
                    let targets = stack_fill(g, drop, own, wrapping, limit, i, leftover).0;
                    assert(targets == seq![(q, Some(room))]);
                    assert(1 * r == r);
                    assert(targets[0] == (cands[0], Some(room)));
                } else {
                    lemma_stack_fill_direct(g, drop, own, wrapping, limit, i + 1, left1);
                    let rest = stack_fill(g, drop, own, wrapping, limit, i + 1, left1);
                    let n = rest.0.len() as int;
                    assert((n + 1) * r == n * r + r) by (nonlinear_arith);
                    assert(n > 1 ==> (n - 1) * r + r == n * r) by (nonlinear_arith);
                    assert(n >= 0 ==> n * r >= 0) by (nonlinear_arith) requires r >= 1;
                    let targets = seq![(q, Some(room))] + rest.0;
                    assert(stack_fill(g, drop, own, wrapping, limit, i, leftover) == (targets, rest.1));
                    assert(1 * r == r);
                    assert forall|k: int| 0 <= k < targets.len() implies #[trigger] targets[k] == (cands[k], Some(room)) by {
                        if k > 0 {
                            assert(targets[k] == rest.0[k - 1]);
                        }
                    }
                }
            },
            _ => {
                lemma_stack_fill_direct(g, drop, own, wrapping, limit, i + 1, leftover);
                if drop_candidate(drop.pos, i, own, wrapping) is None {
                    assert(candidate_list(drop.pos, own, wrapping, i) == candidate_list(drop.pos, own, wrapping, i + 1));
                }
            },
        }
    }
}

/// Where a drop goes: a free tile in the 3x3 block on the drop map, else on a
/// neighbouring map; failing both, for a stackable item, the pile on the drop
/// tile, first from on-map cells and then, while some is left, wrapped cells.
/// An unknown item kind goes nowhere.
pub open spec fn spec_find_drop_pos(
    g: Map<(i32, i32, i32), Seq<GridTile>>,
    own: MapPosition,
    items: Seq<ItemData>,
    drop: DropItem,
) -> Seq<(Position, Option<(GlobalKey, u16)>)> {
    if drop.index >= items.len() {
        seq![]
    } else {
        let base = items[drop.index as int];
        match first_free(g, drop, own, false, 0) {
            Some(q) => seq![(q, None)],
            None => match first_free(g, drop, own, true, 0) {
                Some(q) => seq![(q, None)],
                None => if !base.stackable {
                    seq![]
                } else {
                    let on_map_fill = stack_fill(g, drop, own, false, base.stacklimit, 0, drop.amount as int);
                    if on_map_fill.1 > 0 {
                        on_map_fill.0 + stack_fill(g, drop, own, true, base.stacklimit, 0, on_map_fill.1).0
                    } else {
                        on_map_fill.0
                    }
                },
            },
        }
    }
}

proof fn lemma_candidate_on_map(p: Position, i: int, own: MapPosition, wrapping: bool)
    requires
        on_map(p),
        map_offsets_fit(p.map),
        0 <= i < 9,
    ensures
        drop_candidate(p, i, own, wrapping) matches Some(q) ==> on_map(q),
{
}

/// The `i`-th candidate cell, computed.
fn candidate_at(p: Position, i: usize, own: MapPosition, wrapping: bool) -> (r: Option<Position>)
    requires
        on_map(p),
        map_offsets_fit(p.map),
        i < 9,
    ensures
        r == drop_candidate(p, i as int, own, wrapping),
        r matches Some(q) ==> on_map(q),
{
    let x = p.x - 1 + (i / 3) as i32;
    let y = p.y - 1 + (i % 3) as i32;
    proof { lemma_candidate_on_map(p, i as int, own, wrapping); }
    if wrapping {
        let q = Position::new_offset(x, y, p.map);
        if q.map == own { None } else { Some(q) }
    } else {
        Position::new_checked(x, y, p.map)
    }
}

fn find_first_free(map: &MapActor, drop: DropItem, wrapping: bool) -> (r: Option<Position>)
    requires
        grids_well_formed(map.move_grids.view()),
        on_map(drop.pos),
        map_offsets_fit(drop.pos.map),
    ensures
        r == first_free(map.move_grids.view(), drop, map.position, wrapping, 0),
{
    let t0 = map.move_grids.tile(drop.pos);
    let mut i: usize = 0;
    while i < 9
        invariant
            i <= 9,
            grids_well_formed(map.move_grids.view()),
            on_map(drop.pos),
            map_offsets_fit(drop.pos.map),
            t0 == spec_tile(map.move_grids.view(), drop.pos),
            first_free(map.move_grids.view(), drop, map.position, wrapping, 0)
                == first_free(map.move_grids.view(), drop, map.position, wrapping, i as int),
        decreases 9 - i,
    {
        if let Some(q) = candidate_at(drop.pos, i, map.position, wrapping) {
            if let Some(t) = t0 {
                if t.item.is_none() && !map.is_blocked_tile(q, WorldEntityType::MapItem) {
                    return Some(q);
                }
            }
        }
        i = i + 1;
    }
    None
}

fn fill_stacks(
    map: &MapActor,
    drop: DropItem,
    wrapping: bool,
    limit: u16,
    leftover: u16,
    out: &mut Vec<(Position, Option<(GlobalKey, u16)>)>,
) -> (r: u16)
    requires
        grids_well_formed(map.move_grids.view()),
        on_map(drop.pos),
        map_offsets_fit(drop.pos.map),
    ensures
        final(out)@ == old(out)@ + stack_fill(map.move_grids.view(), drop, map.position, wrapping, limit, 0, leftover as int).0,
        r == stack_fill(map.move_grids.view(), drop, map.position, wrapping, limit, 0, leftover as int).1,
{
    let ghost g = map.move_grids.view();
    let ghost start = old(out)@;
    let room = match map.move_grids.tile(drop.pos) {
        Some(t) => match t.item {
            Some((key, id, val)) => if id == drop.index && val < limit { Some((key, limit - val)) } else { None },
            None => None,
        },
        None => None,
    };
    assert(room == stack_room(g, drop, limit));
    let mut left = leftover;
    let mut i: usize = 0;
    while i < 9
        invariant
            i <= 9,
            on_map(drop.pos),
            map_offsets_fit(drop.pos.map),
            g == map.move_grids.view(),
            start == old(out)@,
            room == stack_room(g, drop, limit),
            stack_fill(g, drop, map.position, wrapping, limit, 0, leftover as int)
                == ((out@.subrange(start.len() as int, out@.len() as int) + stack_fill(g, drop, map.position, wrapping, limit, i as int, left as int).0),
                    stack_fill(g, drop, map.position, wrapping, limit, i as int, left as int).1),
            out@.len() >= start.len(),
            out@.subrange(0, start.len() as int) == start,
        decreases 9 - i,
    {
        let cand = candidate_at(drop.pos, i, map.position, wrapping);
        match (cand, room) {
            (Some(q), Some((key, r))) => {
                let next = left.saturating_sub(r);
                let ghost before = out@;
                out.push((q, Some((key, r))));
                assert(out@.subrange(start.len() as int, out@.len() as int)
                    == before.subrange(start.len() as int, before.len() as int).push((q, Some((key, r)))));
                assert(out@.subrange(0, start.len() as int) == before.subrange(0, start.len() as int));
                if next == 0 {
                    assert(stack_fill(g, drop, map.position, wrapping, limit, i as int, left as int).0
                        == seq![(q, Some((key, r)))]);
                    assert(stack_fill(g, drop, map.position, wrapping, limit, 0, leftover as int).0
                        =~= out@.subrange(start.len() as int, out@.len() as int));
                    assert(out@ =~= start + out@.subrange(start.len() as int, out@.len() as int));
                    assert(out@ =~= start + stack_fill(g, drop, map.position, wrapping, limit, 0, leftover as int).0);
                    return 0;
                }
                left = next;
            },
            _ => {},
        }
        i = i + 1;
    }
    assert(out@ == start + out@.subrange(start.len() as int, out@.len() as int));
    left
}

/// The places a drop can go, and for stacking targets the room each offers;
/// see `spec_find_drop_pos`.
pub fn find_drop_pos(map: &MapActor, items: &Vec<ItemData>, drop_item: DropItem) -> (r: Vec<(Position, Option<(GlobalKey, u16)>)>)
    requires
        grids_well_formed(map.move_grids.view()),
        on_map(drop_item.pos),
        map_offsets_fit(drop_item.pos.map),
    ensures
        r@ == spec_find_drop_pos(map.move_grids.view(), map.position, items@, drop_item),
{
    let mut result: Vec<(Position, Option<(GlobalKey, u16)>)> = Vec::new();

    if drop_item.index as usize >= items.len() {
        return result;
    }
    let stackable = items[drop_item.index as usize].stackable;
    let limit = items[drop_item.index as usize].stacklimit;

    if let Some(q) = find_first_free(map, drop_item, false) {
        result.push((q, None));
        return result;
    }
    if let Some(q) = find_first_free(map, drop_item, true) {
        result.push((q, None));
        return result;
    }
    if !stackable {
        return result;
    }
    let left = fill_stacks(map, drop_item, false, limit, drop_item.amount, &mut result);
    if left > 0 {
        let _ = fill_stacks(map, drop_item, true, limit, left, &mut result);
    }
    result
}

/// One step of placing a drop that `find_drop_pos` found room for.
#[derive(Copy, Clone, Debug, PartialEq, Eq, Structural)]
pub enum DropStep {
    /// Add `amount` to the pile `key` lying at `pos` on this map.
    StackLocal { pos: Position, key: GlobalKey, amount: u16 },
    /// Ask the map of `pos` to add `amount` to its pile there.
    RequestStack { pos: Position, amount: u16 },
    /// Lay a new pile of `amount` at `pos` on this map.
    PlaceLocal { pos: Position, amount: u16 },
    /// Ask the map of `pos` to lay a new pile of `amount` there.
    RequestPlace { pos: Position, amount: u16 },
}

/// The steps of a drop from the `i`-th place found on, with `leftover` still
/// to place, and how much is then awaited from other maps and whether any
/// request went out. Stacking targets take what fits of what is left; a map
/// that cannot be reached gets no request, though what it would have taken
/// is still counted as awaited and not as placed. The first target that is
/// not a pile takes the whole drop and ends the walk.
pub open spec fn drop_walk(
    own: MapPosition,
    stackable: bool,
    total: u16,
    found: Seq<(Position, Option<(GlobalKey, u16)>)>,
    connected: Seq<MapPosition>,
    i: int,
    leftover: u16,
) -> (Seq<DropStep>, int, bool)
    decreases found.len() - i,
{
    if i < 0 || i >= found.len() {
        (seq![], 0, false)
    } else {
        let pos = found[i].0;
        let details = found[i].1;
        if stackable && details is Some {
            let (key, fits) = details->0;
            let amount: u16 = if fits < leftover { fits } else { leftover };
            if pos.map != own {
                if connected.contains(pos.map) {
                    let rest = drop_walk(own, stackable, total, found, connected, i + 1, (leftover - amount) as u16);
                    (seq![DropStep::RequestStack { pos, amount }] + rest.0, amount + rest.1, true)
                } else {
                    let rest = drop_walk(own, stackable, total, found, connected, i + 1, leftover);
                    (rest.0, amount + rest.1, rest.2)
                }
            } else {
                let rest = drop_walk(own, stackable, total, found, connected, i + 1, (leftover - amount) as u16);
                (seq![DropStep::StackLocal { pos, key, amount }] + rest.0, rest.1, rest.2)
            }
        } else if pos.map != own {
            if connected.contains(pos.map) {
                (seq![DropStep::RequestPlace { pos, amount: total }], 0, true)
            } else {
                (seq![], 0, false)
            }
        } else {
            (seq![DropStep::PlaceLocal { pos, amount: total }], 0, false)
        }
    }
}

/// How many items the stacking steps of `steps` add to piles, here or on
/// other maps.
pub open spec fn stacked_total(steps: Seq<DropStep>) -> int
    decreases steps.len(),
{
    if steps.len() == 0 {
        0
    } else {
        let rest = stacked_total(steps.drop_first());
        match steps[0] {
            DropStep::StackLocal { amount, .. } => amount + rest,
            DropStep::RequestStack { amount, .. } => amount + rest,
            _ => rest,
        }
    }
}

proof fn lemma_stacked_total_prepend(step: DropStep, rest: Seq<DropStep>)
    ensures
        stacked_total(seq![step] + rest) == stacked_total(rest) + match step {
            DropStep::StackLocal { amount, .. } => amount as int,
            DropStep::RequestStack { amount, .. } => amount as int,
            _ => 0int,
        },
{
    assert((seq![step] + rest).drop_first() =~= rest);
}

/// A drop never piles up more items than it still has: the stacking steps
/// from any point of the walk add at most what is left to place there.
pub proof fn lemma_drop_never_overstacks(
    own: MapPosition,
    stackable: bool,
    total: u16,
    found: Seq<(Position, Option<(GlobalKey, u16)>)>,
    connected: Seq<MapPosition>,
    i: int,
    leftover: u16,
)
    ensures
        stacked_total(drop_walk(own, stackable, total, found, connected, i, leftover).0) <= leftover,
    decreases found.len() - i,
{
    if 0 <= i < found.len() {
        let pos = found[i].0;
        let details = found[i].1;
        if stackable && details is Some {
            let (key, fits) = details->0;
            let amount: u16 = if fits < leftover { fits } else { leftover };
            if pos.map != own {
                if connected.contains(pos.map) {
                    lemma_drop_never_overstacks(own, stackable, total, found, connected, i + 1, (leftover - amount) as u16);
                    let rest = drop_walk(own, stackable, total, found, connected, i + 1, (leftover - amount) as u16);
                    lemma_stacked_total_prepend(DropStep::RequestStack { pos, amount }, rest.0);
                } else {
                    lemma_drop_never_overstacks(own, stackable, total, found, connected, i + 1, leftover);
                }
            } else {
                lemma_drop_never_overstacks(own, stackable, total, found, connected, i + 1, (leftover - amount) as u16);
                let rest = drop_walk(own, stackable, total, found, connected, i + 1, (leftover - amount) as u16);
                lemma_stacked_total_prepend(DropStep::StackLocal { pos, key, amount }, rest.0);
            }
        } else if pos.map != own {
            if connected.contains(pos.map) {
                lemma_stacked_total_prepend(DropStep::RequestPlace { pos, amount: total }, seq![]);
            }
        } else {
            lemma_stacked_total_prepend(DropStep::PlaceLocal { pos, amount: total }, seq![]);
        }
    }
}

/// The steps that place a drop of `total` items over the places `found`
/// (as `find_drop_pos` gives them, with the room of each pile) from the map
/// `own`, where only the maps in `connected` can be asked; with the amount
/// then awaited from other maps and whether any request went out. See
/// `drop_walk`.
pub fn plan_drop_steps(
    own: MapPosition,
    stackable: bool,
    total: u16,
    found: &Vec<(Position, Option<(GlobalKey, u16)>)>,
    connected: &Vec<MapPosition>,
) -> (r: (Vec<DropStep>, u64, bool))
    requires
        found@.len() <= u32::MAX,
    ensures
        r.0@ == drop_walk(own, stackable, total, found@, connected@, 0, total).0,
        r.1 == drop_walk(own, stackable, total, found@, connected@, 0, total).1,
        r.2 == drop_walk(own, stackable, total, found@, connected@, 0, total).2,
{
    let ghost whole = drop_walk(own, stackable, total, found@, connected@, 0, total);
    let mut steps: Vec<DropStep> = Vec::new();
    let mut waited: u64 = 0;
    let mut sent = false;
    let mut leftover: u16 = total;
    let mut i: usize = 0;
    while i < found.len()
        invariant_except_break
            i <= found@.len(),
            found@.len() <= u32::MAX,
            waited <= i * 65535,
            whole.0 == steps@ + drop_walk(own, stackable, total, found@, connected@, i as int, leftover).0,
            whole.1 == waited + drop_walk(own, stackable, total, found@, connected@, i as int, leftover).1,
            whole.2 == (sent || drop_walk(own, stackable, total, found@, connected@, i as int, leftover).2),
        ensures
            whole.0 == steps@,
            whole.1 == waited,
            whole.2 == sent,
        decreases found@.len() - i,
    {
        let (pos, details) = found[i];
        let ghost rest_here = drop_walk(own, stackable, total, found@, connected@, i as int, leftover);
        if stackable && details.is_some() {
            let (key, fits) = details.unwrap();
            let amount: u16 = if fits < leftover { fits } else { leftover };
            if pos.map != own {
                if contains_map(connected, pos.map) {
                    steps.push(DropStep::RequestStack { pos, amount });
                    sent = true;
                    leftover = leftover - amount;
                }
                waited = waited + amount as u64;
            } else {
                steps.push(DropStep::StackLocal { pos, key, amount });
                leftover = leftover - amount;
            }
            proof {
                assert(steps@ + drop_walk(own, stackable, total, found@, connected@, i as int + 1, leftover).0 =~= whole.0);
            }
            i += 1;
        } else {
            if pos.map != own {
                if contains_map(connected, pos.map) {
                    steps.push(DropStep::RequestPlace { pos, amount: total });
                    sent = true;
                }
            } else {
                steps.push(DropStep::PlaceLocal { pos, amount: total });
            }
            assert(steps@ =~= whole.0);
            break;
        }
    }
    proof {
        if i >= found@.len() {
            assert(steps@ + seq![] =~= steps@);
        }
    }
    (steps, waited, sent)
}

} // verus!
