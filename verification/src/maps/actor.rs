use vstd::prelude::*;

use crate::gametypes::enums::{MapPosDir, WorldEntityType};
use crate::gametypes::map_position::{map_offsets_fit, spec_map_offset, MapPosition};
use crate::gametypes::position::{on_map, tile_index, Position};
use crate::identity::GlobalKey;
use crate::maps::grid::{grid_key, grids_well_formed, spec_set_tile, spec_tile, MoveGrids};
use crate::maps::map::{get_surrounding, spec_surrounding, GridAttribute, GridTile, MapAttribute, WorldMap};
use crate::maps::mapitem::{MapItem, SpawnItemData};
use crate::maps::store::{despawn_due, remove_all, MapActorStore};
use crate::time_ext::MyInstant;

verus! {

/// One entity leaves `pos`: one fewer is counted there, and the tile turns
/// walkable when none remain.
pub open spec fn spec_remove_entity(g: Map<(i32, i32, i32), Seq<GridTile>>, pos: Position) -> Map<(i32, i32, i32), Seq<GridTile>> {
    match spec_tile(g, pos) {
        Some(t) => {
            let count = if t.count >= 1 { (t.count - 1) as u8 } else { 0u8 };
            spec_set_tile(g, pos, GridTile { count, attr: if count == 0 { GridAttribute::Walkable } else { t.attr }, ..t })
        },
        None => g,
    }
}

/// One more entity stands on `pos` (the count stops at 255), which an
/// entity now occupies.
pub open spec fn spec_add_entity(g: Map<(i32, i32, i32), Seq<GridTile>>, pos: Position) -> Map<(i32, i32, i32), Seq<GridTile>> {
    match spec_tile(g, pos) {
        Some(t) => spec_set_tile(
            g,
            pos,
            GridTile { count: if t.count < 255 { (t.count + 1) as u8 } else { 255u8 }, attr: GridAttribute::Entity, ..t },
        ),
        None => g,
    }
}

/// A tile whose blocking agrees with its count: walkable when empty,
/// occupied by an entity otherwise.
pub open spec fn occupancy_consistent(t: GridTile) -> bool {
    if t.count == 0 { t.attr == GridAttribute::Walkable } else { t.attr == GridAttribute::Entity }
}

/// An entity that steps onto a tile and leaves again leaves the grids as
/// they were, when the tile's blocking agreed with its count and the count
/// had not reached its limit.
pub proof fn lemma_add_then_remove_entity(g: Map<(i32, i32, i32), Seq<GridTile>>, pos: Position)
    requires
        grids_well_formed(g),
        on_map(pos),
        spec_tile(g, pos) matches Some(t) ==> occupancy_consistent(t) && t.count < 255,
    ensures
        spec_remove_entity(spec_add_entity(g, pos), pos) == g,
{
    if let Some(t) = spec_tile(g, pos) {
        let k = grid_key(pos.map);
        let g1 = spec_add_entity(g, pos);
        assert(g1.dom().contains(k));
        assert(g1[k][tile_index(pos)] == GridTile { count: (t.count + 1) as u8, attr: GridAttribute::Entity, ..t });
        let g2 = spec_remove_entity(g1, pos);
        assert(g2[k] =~= g[k]);
        assert(g2 =~= g);
    }
}

/// The state one map actor keeps for its map and the grids it knows.
pub struct MapActor {
    pub position: MapPosition,
    pub tick: MyInstant,
    /// NPC spawn count of each zone.
    pub zones: [u64; 5],
    pub spawnable_item: Vec<SpawnItemData>,
    pub move_grids: MoveGrids,
}

/// Whether the direction bits `bits` block leaving a tile in direction
/// `movedir` (0 down, 1 right, 2 up, 3 left): bit 0, 3, 1 and 2 in turn.
pub open spec fn spec_dir_bit_blocks(bits: u8, movedir: u8) -> bool {
    if movedir == 0 {
        bits & 1u8 == 1u8
    } else if movedir == 1 {
        bits & 8u8 == 8u8
    } else if movedir == 2 {
        bits & 2u8 == 2u8
    } else {
        bits & 4u8 == 4u8
    }
}

/// Leaving `pos` in `movedir` is blocked; a tile whose grid is not held blocks.
pub open spec fn spec_dir_blocked(g: Map<(i32, i32, i32), Seq<GridTile>>, pos: Position, movedir: u8) -> bool {
    match spec_tile(g, pos) {
        Some(t) => spec_dir_bit_blocks(t.dir_block, movedir),
        None => true,
    }
}

/// An entity of kind `et` cannot stand on `pos`. Entities block all but map
/// items, NPC blocks stop only NPCs, and a tile whose grid is not held blocks.
pub open spec fn spec_blocked_tile(g: Map<(i32, i32, i32), Seq<GridTile>>, pos: Position, et: WorldEntityType) -> bool {
    match spec_tile(g, pos) {
        Some(t) => match t.attr {
            GridAttribute::Walkable => false,
            GridAttribute::Entity => if et == WorldEntityType::MapItem { false } else { t.count >= 1 },
            GridAttribute::Blocked => true,
            GridAttribute::NpcBlock => et == WorldEntityType::Npc,
        },
        None => true,
    }
}

impl MapActor {
    /// A fresh actor for the map at `position`, holding no grids yet.
    pub fn new(position: MapPosition, tick: MyInstant) -> (r: MapActor)
        ensures
            r.position == position,
            r.tick == tick,
            r.zones@ == seq![0u64, 0u64, 0u64, 0u64, 0u64],
            r.spawnable_item@.len() == 0,
            r.move_grids.view() == crate::maps::grid::no_grids(),
    {
        MapActor {
            position,
            tick,
            zones: [0, 0, 0, 0, 0],
            spawnable_item: Vec::new(),
            move_grids: MoveGrids::new(),
        }
    }

    /// Whether moving from `cur_pos` in `movedir` onto `next_pos` is blocked,
    /// by a direction block on the current tile or by the next tile.
    pub fn map_path_blocked(&self, cur_pos: Position, next_pos: Position, movedir: u8, entity_type: WorldEntityType) -> (r: bool)
        requires
            grids_well_formed(self.move_grids.view()),
            on_map(cur_pos),
            on_map(next_pos),
        ensures
            r == (spec_dir_blocked(self.move_grids.view(), cur_pos, movedir)
                || spec_blocked_tile(self.move_grids.view(), next_pos, entity_type)),
    {
        let blocked = self.is_dir_blocked(cur_pos, movedir);
        if !blocked {
            return self.is_blocked_tile(next_pos, entity_type);
        }
        blocked
    }

    /// Whether leaving `cur_pos` in `movedir` is blocked.
    pub fn is_dir_blocked(&self, cur_pos: Position, movedir: u8) -> (r: bool)
        requires
            grids_well_formed(self.move_grids.view()),
            on_map(cur_pos),
        ensures
            r == spec_dir_blocked(self.move_grids.view(), cur_pos, movedir),
    {
        match self.move_grids.tile(cur_pos) {
            Some(t) => {
                if movedir == 0 {
                    t.dir_block & 1u8 == 1u8
                } else if movedir == 1 {
                    t.dir_block & 8u8 == 8u8
                } else if movedir == 2 {
                    t.dir_block & 2u8 == 2u8
                } else {
                    t.dir_block & 4u8 == 4u8
                }
            },
            None => true,
        }
    }

    /// Whether an entity of kind `entity_type` cannot stand on `pos`.
    pub fn is_blocked_tile(&self, pos: Position, entity_type: WorldEntityType) -> (r: bool)
        requires
            grids_well_formed(self.move_grids.view()),
            on_map(pos),
        ensures
            r == spec_blocked_tile(self.move_grids.view(), pos, entity_type),
    {
        match self.move_grids.tile(pos) {
            Some(t) => match t.attr {
                GridAttribute::Walkable => false,
                GridAttribute::Entity => {
                    if entity_type == WorldEntityType::MapItem {
                        false
                    } else {
                        t.count >= 1
                    }
                },
                GridAttribute::Blocked => true,
                GridAttribute::NpcBlock => entity_type == WorldEntityType::Npc,
            },
            None => true,
        }
    }

    /// The maps around this actor's map.
    pub fn get_surrounding(&self, include_corners: bool) -> (r: Vec<MapPosition>)
        requires
            map_offsets_fit(self.position),
        ensures
            r@ == spec_surrounding(self.position, include_corners),
    {
        get_surrounding(self.position, include_corners)
    }

    /// Registers an item spawn point, due at the current tick.
    pub fn add_spawnable_item(&mut self, pos: Position, index: u32, amount: u16, timer_set: u64)
        ensures
            final(self).spawnable_item@ == old(self).spawnable_item@.push(
                SpawnItemData { index, amount, pos, timer_set, timer: old(self).tick },
            ),
            final(self).position == old(self).position,
            final(self).tick == old(self).tick,
            final(self).zones == old(self).zones,
            final(self).move_grids == old(self).move_grids,
    {
        let timer = self.tick;
        self.spawnable_item.push(SpawnItemData { index, amount, pos, timer_set, timer });
    }

    /// One entity leaves `pos`; the tile turns walkable when none remain.
    pub fn remove_entity_from_grid(&mut self, pos: Position)
        requires
            grids_well_formed(old(self).move_grids.view()),
            on_map(pos),
        ensures
            grids_well_formed(final(self).move_grids.view()),
            final(self).move_grids.view() == spec_remove_entity(old(self).move_grids.view(), pos),
            final(self).position == old(self).position,
    {
        if let Some(t) = self.move_grids.tile(pos) {
            let count = t.count.saturating_sub(1);
            let attr = if count == 0 { GridAttribute::Walkable } else { t.attr };
            self.move_grids.set_tile(pos, GridTile { count, attr, ..t });
        }
    }

    /// One more entity stands on `pos`.
    pub fn add_entity_to_grid(&mut self, pos: Position)
        requires
            grids_well_formed(old(self).move_grids.view()),
            on_map(pos),
        ensures
            grids_well_formed(final(self).move_grids.view()),
            final(self).move_grids.view() == spec_add_entity(old(self).move_grids.view(), pos),
            final(self).position == old(self).position,
    {
        if let Some(t) = self.move_grids.tile(pos) {
            let count = t.count.saturating_add(1);
            self.move_grids.set_tile(pos, GridTile { count, attr: GridAttribute::Entity, ..t });
        }
    }

    /// No item lies on `pos` any more.
    pub fn remove_item_from_grid(&mut self, pos: Position)
        requires
            grids_well_formed(old(self).move_grids.view()),
            on_map(pos),
        ensures
            grids_well_formed(final(self).move_grids.view()),
            final(self).move_grids.view() == (match spec_tile(old(self).move_grids.view(), pos) {
                Some(t) => spec_set_tile(old(self).move_grids.view(), pos, GridTile { item: None, ..t }),
                None => old(self).move_grids.view(),
            }),
            final(self).position == old(self).position,
    {
        if let Some(t) = self.move_grids.tile(pos) {
            self.move_grids.set_tile(pos, GridTile { item: None, ..t });
        }
    }

    /// Item `num` of amount `amount`, under key `key`, lies on `pos`.
    pub fn add_item_to_grid(&mut self, pos: Position, key: GlobalKey, num: u32, amount: u16)
        requires
            grids_well_formed(old(self).move_grids.view()),
            on_map(pos),
        ensures
            grids_well_formed(final(self).move_grids.view()),
            final(self).move_grids.view() == (match spec_tile(old(self).move_grids.view(), pos) {
                Some(t) => spec_set_tile(old(self).move_grids.view(), pos, GridTile { item: Some((key, num, amount)), ..t }),
                None => old(self).move_grids.view(),
            }),
            final(self).position == old(self).position,
    {
        if let Some(t) = self.move_grids.tile(pos) {
            self.move_grids.set_tile(pos, GridTile { item: Some((key, num, amount)), ..t });
        }
    }

    /// The map next to `position` in direction `dir`, if its grid is held.
    pub fn get_dir_mapid(&self, position: MapPosition, dir: MapPosDir) -> (r: Option<MapPosition>)
        requires
            map_offsets_fit(position),
        ensures
            r == (if self.move_grids.view().dom().contains(grid_key(spec_map_offset(position, dir))) {
                Some(spec_map_offset(position, dir))
            } else {
                None
            }),
    {
        let offset = position.map_offset(dir);
        if self.move_grids.contains(offset) {
            Some(offset)
        } else {
            None
        }
    }
}

/// The blocking state a freshly loaded tile starts in: storage, shops and
/// blocked tiles block everyone, NPC blocks stop NPCs, the rest is walkable.
pub open spec fn spec_loaded_tile(a: MapAttribute, dir_block: u8) -> GridTile {
    GridTile {
        count: 0,
        attr: match a {
            MapAttribute::Blocked | MapAttribute::Storage | MapAttribute::Shop(_) => GridAttribute::Blocked,
            MapAttribute::NpcBlocked => GridAttribute::NpcBlock,
            _ => GridAttribute::Walkable,
        },
        item: None,
        dir_block,
    }
}

/// The item spawn points among the first `n` tiles, in tile order, due at `tick`.
pub open spec fn spec_spawn_points(attrs: Seq<MapAttribute>, map: MapPosition, tick: MyInstant, n: int) -> Seq<SpawnItemData>
    decreases n,
{
    if n <= 0 {
        seq![]
    } else {
        let before = spec_spawn_points(attrs, map, tick, n - 1);
        match attrs[n - 1] {
            MapAttribute::ItemSpawn(d) => before.push(SpawnItemData {
                index: d.index,
                amount: d.amount,
                pos: Position { x: ((n - 1) % 32) as i32, y: ((n - 1) / 32) as i32, map },
                timer_set: d.timer,
                timer: tick,
            }),
            _ => before,
        }
    }
}

fn loaded_tile(a: &MapAttribute, dir_block: u8) -> (r: GridTile)
    ensures
        r == spec_loaded_tile(*a, dir_block),
{
    let attr = match a {
        MapAttribute::Blocked | MapAttribute::Storage | MapAttribute::Shop(_) => GridAttribute::Blocked,
        MapAttribute::NpcBlocked => GridAttribute::NpcBlock,
        _ => GridAttribute::Walkable,
    };
    GridTile { count: 0, attr, item: None, dir_block }
}

impl MapActor {
    /// Takes in a map from the editor: its grid, built tile by tile from the
    /// attributes and direction blocks, and its item spawn points.
    pub fn load_map(&mut self, map: &WorldMap)
        requires
            map.attribute@.len() >= 1024,
            map.dir_block@.len() >= 1024,
        ensures
            final(self).move_grids.view() == old(self).move_grids.view().insert(
                grid_key(map.position),
                Seq::new(1024, |i: int| spec_loaded_tile(map.attribute@[i], map.dir_block@[i])),
            ),
            final(self).spawnable_item@ == old(self).spawnable_item@
                + spec_spawn_points(map.attribute@, map.position, old(self).tick, 1024),
            final(self).position == old(self).position,
            final(self).tick == old(self).tick,
    {
        let mut grid: Vec<GridTile> = Vec::new();
        let ghost start = self.spawnable_item@;
        let mut id: usize = 0;
        while id < 1024
            invariant
                id <= 1024,
                map.attribute@.len() >= 1024,
                map.dir_block@.len() >= 1024,
                grid@ == Seq::new(id as nat, |i: int| spec_loaded_tile(map.attribute@[i], map.dir_block@[i])),
                self.spawnable_item@ == start + spec_spawn_points(map.attribute@, map.position, self.tick, id as int),
                self.tick == old(self).tick,
                self.position == old(self).position,
                self.move_grids == old(self).move_grids,
                start == old(self).spawnable_item@,
            decreases 1024 - id,
        {
            let t = loaded_tile(&map.attribute[id], map.dir_block[id]);
            grid.push(t);
            match &map.attribute[id] {
                MapAttribute::ItemSpawn(itemdata) => {
                    let pos = Position::new((id % 32) as i32, (id / 32) as i32, map.position);
                    self.add_spawnable_item(pos, itemdata.index, itemdata.amount, itemdata.timer);
                },
                _ => {},
            }
            id = id + 1;
            assert(grid@ =~= Seq::new(id as nat, |i: int| spec_loaded_tile(map.attribute@[i], map.dir_block@[i])));
        }
        self.move_grids.insert(map.position, grid);
    }
}

/// A spawn point's tile currently holds an item.
pub open spec fn spawn_occupied(g: Map<(i32, i32, i32), Seq<GridTile>>, d: SpawnItemData) -> bool {
    spec_tile(g, d.pos) matches Some(t) && t.item is Some
}

/// A spawn point after a pass: an occupied one restarts its timer from now.
pub open spec fn spec_spawn_after_pass(g: Map<(i32, i32, i32), Seq<GridTile>>, d: SpawnItemData, tick: MyInstant) -> SpawnItemData {
    if spawn_occupied(g, d) {
        SpawnItemData { timer: MyInstant((tick.0 + d.timer_set) as u64), ..d }
    } else {
        d
    }
}

/// A spawn point is due: its tile is free and its timer has run out.
pub open spec fn spawn_due(g: Map<(i32, i32, i32), Seq<GridTile>>, d: SpawnItemData, tick: MyInstant) -> bool {
    !spawn_occupied(g, d) && d.timer.0 <= tick.0
}

impl MapActor {
    /// One pass over the item spawn points: those whose tile is free and whose
    /// timer has run out are returned, to be spawned; those whose tile holds an
    /// item restart their timer.
    pub fn update_item_spawns(&mut self) -> (due: Vec<SpawnItemData>)
        requires
            grids_well_formed(old(self).move_grids.view()),
            forall|i: int| 0 <= i < old(self).spawnable_item@.len() ==>
                on_map(#[trigger] old(self).spawnable_item@[i].pos)
                && old(self).tick.0 + old(self).spawnable_item@[i].timer_set <= u64::MAX,
        ensures
            final(self).spawnable_item@.len() == old(self).spawnable_item@.len(),
            forall|i: int| 0 <= i < old(self).spawnable_item@.len() ==>
                #[trigger] final(self).spawnable_item@[i]
                    == spec_spawn_after_pass(old(self).move_grids.view(), old(self).spawnable_item@[i], old(self).tick),
            due@ == old(self).spawnable_item@.filter(|d: SpawnItemData| spawn_due(old(self).move_grids.view(), d, old(self).tick)),
            final(self).move_grids == old(self).move_grids,
            final(self).position == old(self).position,
            final(self).tick == old(self).tick,
    {
        let ghost g = self.move_grids.view();
        let ghost orig = self.spawnable_item@;
        let tick = self.tick;
        assert forall|k: int| 0 <= k < orig.len() implies
            on_map(#[trigger] orig[k].pos) && tick.0 + orig[k].timer_set <= u64::MAX by {
            assert(on_map(old(self).spawnable_item@[k].pos));
        }
        let mut due: Vec<SpawnItemData> = Vec::new();
        let mut i: usize = 0;
        while i < self.spawnable_item.len()
            invariant
                i <= self.spawnable_item@.len(),
                self.spawnable_item@.len() == orig.len(),
                g == self.move_grids.view(),
                orig == old(self).spawnable_item@,
                self.move_grids == old(self).move_grids,
                self.position == old(self).position,
                self.tick == old(self).tick,
                grids_well_formed(g),
                forall|k: int| 0 <= k < orig.len() ==>
                    on_map(#[trigger] orig[k].pos) && tick.0 + orig[k].timer_set <= u64::MAX,
                forall|k: int| 0 <= k < i ==> #[trigger] self.spawnable_item@[k] == spec_spawn_after_pass(g, orig[k], tick),
                forall|k: int| i <= k < orig.len() ==> #[trigger] self.spawnable_item@[k] == orig[k],
                due@ == orig.subrange(0, i as int).filter(|d: SpawnItemData| spawn_due(g, d, tick)),
                tick == old(self).tick,
            decreases orig.len() - i,
        {
            let d = self.spawnable_item[i];
            assert(orig.subrange(0, i + 1).drop_last() == orig.subrange(0, i as int));
            reveal_with_fuel(Seq::<_>::filter, 1);
            let occupied = match self.move_grids.tile(d.pos) {
                Some(t) => t.item.is_some(),
                None => false,
            };
            if !occupied {
                if d.timer.0 <= tick.0 {
                    due.push(d);
                }
            } else {
                let timer = tick.add_millis(d.timer_set);
                self.spawnable_item.set(i, SpawnItemData { timer, ..d });
            }
            i = i + 1;
        }
        assert(orig.subrange(0, orig.len() as int) == orig);
        due
    }
}

impl MapActor {
    /// Removes from `store` every item whose despawn time has come by the
    /// actor's tick and gives their keys, in the store's order, for the
    /// world to forget them.
    pub fn update_map_items(&self, store: &mut MapActorStore) -> (r: Vec<GlobalKey>)
        requires
            old(store).well_formed(),
        ensures
            final(store).well_formed(),
            r@.map_values(|k: GlobalKey| k.0) == old(store).view().filter(|e: (u64, MapItem)| despawn_due(e.1, self.tick)).map_values(
                |e: (u64, MapItem)| e.0,
            ),
            final(store).view() == remove_all(old(store).view(), r@.map_values(|k: GlobalKey| k.0)),
    {
        store.remove_despawned(self.tick)
    }
}

} // verus!
