use vstd::prelude::*;

use indexmap::IndexMap;
use std::collections::hash_map::RandomState;

use crate::gametypes::map_position::MapPosition;
use crate::gametypes::position::{on_map, tile_index, Position};
use crate::maps::map::GridTile;

verus! {

#[verifier::external_type_specification]
#[verifier::external_body]
#[verifier::reject_recursive_types(K)]
#[verifier::reject_recursive_types(V)]
#[verifier::reject_recursive_types(S)]
pub struct ExIndexMap<K, V, S>(IndexMap<K, V, S>);

/// The tile grids held by map, each under its map's (column, row, group).
pub uninterp spec fn grid_contents(m: IndexMap<(i32, i32, i32), Vec<GridTile>, RandomState>) -> Map<(i32, i32, i32), Seq<GridTile>>;

/// No grids at all.
pub open spec fn no_grids() -> Map<(i32, i32, i32), Seq<GridTile>> {
    Map::empty()
}

/// The key a map's grid is stored under.
pub open spec fn grid_key(m: MapPosition) -> (i32, i32, i32) {
    (m.x, m.y, m.group)
}

/// Every stored grid has one tile per map cell.
pub open spec fn grids_well_formed(g: Map<(i32, i32, i32), Seq<GridTile>>) -> bool {
    forall|k: (i32, i32, i32)| #[trigger] g.dom().contains(k) ==> g[k].len() == 1024
}

/// The tile at `pos`, when its map's grid is held.
pub open spec fn spec_tile(g: Map<(i32, i32, i32), Seq<GridTile>>, pos: Position) -> Option<GridTile> {
    if g.dom().contains(grid_key(pos.map)) {
        Some(g[grid_key(pos.map)][tile_index(pos)])
    } else {
        None
    }
}

/// The grids with the tile at `pos` replaced, when its map's grid is held.
pub open spec fn spec_set_tile(g: Map<(i32, i32, i32), Seq<GridTile>>, pos: Position, t: GridTile) -> Map<(i32, i32, i32), Seq<GridTile>> {
    if g.dom().contains(grid_key(pos.map)) {
        g.insert(grid_key(pos.map), g[grid_key(pos.map)].update(tile_index(pos), t))
    } else {
        g
    }
}

/// `IndexMap::default`: an empty map.
#[verifier::external_body]
pub(crate) fn grids_empty() -> (r: IndexMap<(i32, i32, i32), Vec<GridTile>, RandomState>)
    ensures
        grid_contents(r) == no_grids(),
{
    IndexMap::default()
}

/// `IndexMap::get`: the grid stored under `k`, if any.
#[verifier::external_body]
pub(crate) fn grids_get<'a>(m: &'a IndexMap<(i32, i32, i32), Vec<GridTile>, RandomState>, k: &(i32, i32, i32)) -> (r: Option<&'a Vec<GridTile>>)
    ensures
        r is Some == grid_contents(*m).dom().contains(*k),
        r matches Some(v) ==> v@ == grid_contents(*m)[*k],
{
    m.get(k)
}

/// `IndexMap::get_mut`: the grid stored under `k`, to change in place; the
/// map afterwards holds whatever the grid was changed to.
#[verifier::external_body]
pub(crate) fn grids_get_mut<'a>(m: &'a mut IndexMap<(i32, i32, i32), Vec<GridTile>, RandomState>, k: &(i32, i32, i32)) -> (r: Option<&'a mut Vec<GridTile>>)
    ensures
        r is Some == grid_contents(*old(m)).dom().contains(*k),
        r matches Some(v) ==> (*v)@ == grid_contents(*old(m))[*k]
            && grid_contents(*final(m)) == grid_contents(*old(m)).insert(*k, (*final(v))@),
        r is None ==> grid_contents(*final(m)) == grid_contents(*old(m)),
{
    m.get_mut(k)
}

/// `IndexMap::insert`: stores `v` under `k`, replacing any grid there.
#[verifier::external_body]
pub(crate) fn grids_insert(m: &mut IndexMap<(i32, i32, i32), Vec<GridTile>, RandomState>, k: (i32, i32, i32), v: Vec<GridTile>)
    ensures
        grid_contents(*final(m)) == grid_contents(*old(m)).insert(k, v@),
{
    m.insert(k, v);
}

/// The tile grids of the maps an actor manages.
pub struct MoveGrids {
    pub grids: IndexMap<(i32, i32, i32), Vec<GridTile>, RandomState>,
}

impl MoveGrids {
    /// The grids by map key.
    pub open spec fn view(&self) -> Map<(i32, i32, i32), Seq<GridTile>> {
        grid_contents(self.grids)
    }

    pub fn new() -> (r: MoveGrids)
        ensures
            r.view() == no_grids(),
    {
        MoveGrids { grids: grids_empty() }
    }

    /// Stores the grid of map `m`.
    pub fn insert(&mut self, m: MapPosition, grid: Vec<GridTile>)
        ensures
            final(self).view() == old(self).view().insert(grid_key(m), grid@),
    {
        grids_insert(&mut self.grids, (m.x, m.y, m.group), grid)
    }

    /// Whether the grid of map `m` is held.
    pub fn contains(&self, m: MapPosition) -> (r: bool)
        ensures
            r == self.view().dom().contains(grid_key(m)),
    {
        grids_get(&self.grids, &(m.x, m.y, m.group)).is_some()
    }

    /// The tile at `pos`, when its map's grid is held.
    pub fn tile(&self, pos: Position) -> (r: Option<GridTile>)
        requires
            grids_well_formed(self.view()),
            on_map(pos),
        ensures
            r == spec_tile(self.view(), pos),
    {
        match grids_get(&self.grids, &(pos.map.x, pos.map.y, pos.map.group)) {
            Some(grid) => Some(grid[pos.as_tile()]),
            None => None,
        }
    }

    /// Replaces the tile at `pos`, when its map's grid is held.
    pub fn set_tile(&mut self, pos: Position, t: GridTile)
        requires
            grids_well_formed(old(self).view()),
            on_map(pos),
        ensures
            final(self).view() == spec_set_tile(old(self).view(), pos, t),
            grids_well_formed(final(self).view()),
    {
        let idx = pos.as_tile();
        match grids_get_mut(&mut self.grids, &(pos.map.x, pos.map.y, pos.map.group)) {
            Some(grid) => {
                grid.set(idx, t);
            },
            None => {},
        }
    }
}

} // verus!
