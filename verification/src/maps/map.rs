use vstd::prelude::*;

use crate::gametypes::enums::{dir_step_x, dir_step_y, map_pos_dir, map_pos_value, Dir, MapPos, MapPosDir, Weather};
use crate::gametypes::map_position::{map_offsets_fit, spec_map_distance, spec_map_offset, MapPosition};
use crate::gametypes::position::Position;
use crate::identity::GlobalKey;

verus! {

#[derive(Clone, Debug, PartialEq, Eq, Structural)]
pub struct WarpData {
    pub map_x: i32,
    pub map_y: i32,
    pub map_group: u64,
    pub tile_x: u32,
    pub tile_y: u32,
}

#[derive(Clone, Debug, PartialEq, Eq, Structural)]
pub struct ItemSpawnData {
    pub index: u32,
    pub amount: u16,
    pub timer: u64,
}

/// What a tile of a map is, as the map editor set it.
#[derive(Clone, Debug, PartialEq, Eq)]
pub enum MapAttribute {
    Walkable,
    Blocked,
    NpcBlocked,
    Warp(WarpData),
    Sign(String),
    ItemSpawn(ItemSpawnData),
    Storage,
    Shop(u16),
    Count,
}

/// How a tile blocks movement right now.
#[derive(Copy, Clone, Debug, PartialEq, Eq, Structural)]
pub enum GridAttribute {
    Walkable,
    Entity,
    Blocked,
    NpcBlock,
}

/// The changing state of one tile: entities standing on it, how it blocks,
/// the item lying on it (key, item index, amount) and its direction blocks.
#[derive(Copy, Clone, Debug, PartialEq, Eq)]
pub struct GridTile {
    pub count: u8,
    pub attr: GridAttribute,
    pub item: Option<(GlobalKey, u32, u16)>,
    pub dir_block: u8,
}

/// An empty walkable tile.
pub open spec fn empty_tile() -> GridTile {
    GridTile { count: 0, attr: GridAttribute::Walkable, item: None, dir_block: 0 }
}

impl Default for GridTile {
    fn default() -> (r: GridTile)
        ensures
            r == empty_tile(),
    {
        GridTile { count: 0, attr: GridAttribute::Walkable, item: None, dir_block: 0 }
    }
}

/// A map as the editor stores it.
#[derive(Clone, Debug)]
pub struct WorldMap {
    pub position: MapPosition,
    pub dir_block: Vec<u8>,
    pub attribute: Vec<MapAttribute>,
    pub zonespawns: [Vec<(u16, u16)>; 5],
    pub zones: [(u64, [Option<u64>; 5]); 5],
    pub music: Option<String>,
    pub weather: Weather,
}

/// `p` with its four side neighbours, then, with corners, its four corner
/// neighbours: centre, up, down, left, right, up-left, up-right, down-left,
/// down-right.
pub open spec fn spec_surrounding(p: MapPosition, include_corners: bool) -> Seq<MapPosition> {
    let sides = seq![
        p,
        spec_map_offset(p, MapPosDir::Up),
        spec_map_offset(p, MapPosDir::Down),
        spec_map_offset(p, MapPosDir::Left),
        spec_map_offset(p, MapPosDir::Right),
    ];
    if include_corners {
        sides + seq![
            spec_map_offset(p, MapPosDir::UpLeft),
            spec_map_offset(p, MapPosDir::UpRight),
            spec_map_offset(p, MapPosDir::DownLeft),
            spec_map_offset(p, MapPosDir::DownRight),
        ]
    } else {
        sides
    }
}

/// The same maps as `spec_surrounding`, each tagged with its side.
pub open spec fn spec_surrounding_dir(p: MapPosition, include_corners: bool) -> Seq<MapPos> {
    let sides = seq![
        MapPos::Center(p),
        MapPos::Up(spec_map_offset(p, MapPosDir::Up)),
        MapPos::Down(spec_map_offset(p, MapPosDir::Down)),
        MapPos::Left(spec_map_offset(p, MapPosDir::Left)),
        MapPos::Right(spec_map_offset(p, MapPosDir::Right)),
    ];
    if include_corners {
        sides + seq![
            MapPos::UpLeft(spec_map_offset(p, MapPosDir::UpLeft)),
            MapPos::UpRight(spec_map_offset(p, MapPosDir::UpRight)),
            MapPos::DownLeft(spec_map_offset(p, MapPosDir::DownLeft)),
            MapPos::DownRight(spec_map_offset(p, MapPosDir::DownRight)),
        ]
    } else {
        sides
    }
}

/// The side of `start` on which `position` lies, or `Outside` when it is not
/// a neighbour (corners count only when asked for) or lies in another group.
pub open spec fn spec_check_surrounding(start: MapPosition, position: MapPosition, include_corners: bool) -> MapPos {
    let dx = position.x - start.x;
    let dy = position.y - start.y;
    if start.group != position.group {
        MapPos::Outside
    } else if dx == 0 && dy == 0 {
        MapPos::Center(position)
    } else if dx == 0 && dy == 1 {
        MapPos::Up(position)
    } else if dx == 0 && dy == -1 {
        MapPos::Down(position)
    } else if dx == -1 && dy == 0 {
        MapPos::Left(position)
    } else if dx == 1 && dy == 0 {
        MapPos::Right(position)
    } else if include_corners && dx == -1 && dy == 1 {
        MapPos::UpLeft(position)
    } else if include_corners && dx == 1 && dy == 1 {
        MapPos::UpRight(position)
    } else if include_corners && dx == -1 && dy == -1 {
        MapPos::DownLeft(position)
    } else if include_corners && dx == 1 && dy == -1 {
        MapPos::DownRight(position)
    } else {
        MapPos::Outside
    }
}

/// The three maps a step in direction `dir` brings into view: the next map
/// that way and its two corner neighbours.
pub open spec fn spec_directional_maps(p: MapPosition, dir: Dir) -> Seq<MapPosition> {
    match dir {
        Dir::Down => seq![
            spec_map_offset(p, MapPosDir::Down),
            spec_map_offset(p, MapPosDir::DownLeft),
            spec_map_offset(p, MapPosDir::DownRight),
        ],
        Dir::Right => seq![
            spec_map_offset(p, MapPosDir::Right),
            spec_map_offset(p, MapPosDir::UpRight),
            spec_map_offset(p, MapPosDir::DownRight),
        ],
        Dir::Up => seq![
            spec_map_offset(p, MapPosDir::Up),
            spec_map_offset(p, MapPosDir::UpLeft),
            spec_map_offset(p, MapPosDir::UpRight),
        ],
        Dir::Left => seq![
            spec_map_offset(p, MapPosDir::Left),
            spec_map_offset(p, MapPosDir::UpLeft),
            spec_map_offset(p, MapPosDir::DownLeft),
        ],
    }
}

impl WorldMap {
    /// The maps around this one (see `get_surrounding`).
    pub fn get_surrounding(&self, include_corners: bool) -> (r: Vec<MapPosition>)
        requires
            map_offsets_fit(self.position),
        ensures
            r@ == spec_surrounding(self.position, include_corners),
    {
        get_surrounding(self.position, include_corners)
    }
}

/// On which side of `start` the map `position` lies.
pub fn check_surrounding(start: MapPosition, position: MapPosition, include_corners: bool) -> (r: MapPos)
    requires
        map_offsets_fit(start),
    ensures
        r == spec_check_surrounding(start, position, include_corners),
{
    if start.group != position.group {
        return MapPos::Outside;
    }
    if position == start {
        MapPos::Center(position)
    } else if position == start.map_offset(MapPosDir::Up) {
        MapPos::Up(start.map_offset(MapPosDir::Up))
    } else if position == start.map_offset(MapPosDir::Down) {
        MapPos::Down(start.map_offset(MapPosDir::Down))
    } else if position == start.map_offset(MapPosDir::Left) {
        MapPos::Left(start.map_offset(MapPosDir::Left))
    } else if position == start.map_offset(MapPosDir::Right) {
        MapPos::Right(start.map_offset(MapPosDir::Right))
    } else if include_corners {
        if position == start.map_offset(MapPosDir::UpLeft) {
            MapPos::UpLeft(start.map_offset(MapPosDir::UpLeft))
        } else if position == start.map_offset(MapPosDir::UpRight) {
            MapPos::UpRight(start.map_offset(MapPosDir::UpRight))
        } else if position == start.map_offset(MapPosDir::DownLeft) {
            MapPos::DownLeft(start.map_offset(MapPosDir::DownLeft))
        } else if position == start.map_offset(MapPosDir::DownRight) {
            MapPos::DownRight(start.map_offset(MapPosDir::DownRight))
        } else {
            MapPos::Outside
        }
    } else {
        MapPos::Outside
    }
}

/// `position` and the maps around it, centre first.
pub fn get_surrounding(position: MapPosition, include_corners: bool) -> (r: Vec<MapPosition>)
    requires
        map_offsets_fit(position),
    ensures
        r@ == spec_surrounding(position, include_corners),
{
    let mut arr = vec![
        position,
        position.map_offset(MapPosDir::Up),
        position.map_offset(MapPosDir::Down),
        position.map_offset(MapPosDir::Left),
        position.map_offset(MapPosDir::Right),
    ];

    if include_corners {
        arr.push(position.map_offset(MapPosDir::UpLeft));
        arr.push(position.map_offset(MapPosDir::UpRight));
        arr.push(position.map_offset(MapPosDir::DownLeft));
        arr.push(position.map_offset(MapPosDir::DownRight));
    }
    arr
}

/// The maps around `position`, each tagged with its side, centre first.
pub fn get_surrounding_dir(position: MapPosition, include_corners: bool) -> (r: Vec<MapPos>)
    requires
        map_offsets_fit(position),
    ensures
        r@ == spec_surrounding_dir(position, include_corners),
{
    let mut arr = vec![
        MapPos::Center(position),
        MapPos::Up(position.map_offset(MapPosDir::Up)),
        MapPos::Down(position.map_offset(MapPosDir::Down)),
        MapPos::Left(position.map_offset(MapPosDir::Left)),
        MapPos::Right(position.map_offset(MapPosDir::Right)),
    ];

    if include_corners {
        arr.push(MapPos::UpLeft(position.map_offset(MapPosDir::UpLeft)));
        arr.push(MapPos::UpRight(position.map_offset(MapPosDir::UpRight)));
        arr.push(MapPos::DownLeft(position.map_offset(MapPosDir::DownLeft)));
        arr.push(MapPos::DownRight(position.map_offset(MapPosDir::DownRight)));
    }
    arr
}

/// The maps a player sees newly after moving one map in direction `dir`
/// from `position`.
/// `m` lies one map further than `p` in direction `dir`, at most one map
/// to either side, in the same group.
pub open spec fn one_map_ahead(p: MapPosition, m: MapPosition, dir: Dir) -> bool {
    &&& m.group == p.group
    &&& if dir_step_x(dir) != 0 {
        m.x - p.x == dir_step_x(dir) && -1 <= m.y - p.y <= 1
    } else {
        m.y - p.y == dir_step_y(dir) && -1 <= m.x - p.x <= 1
    }
}

/// The maps a step in direction `dir` brings into view are the three maps
/// one further that way: each lies one map on in `dir` and at most one to
/// the side, in the same group, and no two are the same; so they are the
/// one straight ahead and its two neighbours across.
pub proof fn lemma_directional_maps_ahead(p: MapPosition, dir: Dir)
    requires
        map_offsets_fit(p),
    ensures
        spec_directional_maps(p, dir).len() == 3,
        forall|i: int| 0 <= i < 3 ==> one_map_ahead(p, #[trigger] spec_directional_maps(p, dir)[i], dir),
        spec_directional_maps(p, dir).no_duplicates(),
        spec_directional_maps(p, dir)[0].x == p.x + dir_step_x(dir),
        spec_directional_maps(p, dir)[0].y == p.y + dir_step_y(dir),
{
    let s = spec_directional_maps(p, dir);
    assert forall|i: int, j: int| 0 <= i < s.len() && 0 <= j < s.len() && i != j implies s[i] != s[j] by {}
}

pub fn get_directional_maps(position: MapPosition, dir: Dir) -> (r: Vec<MapPosition>)
    requires
        map_offsets_fit(position),
    ensures
        r@ == spec_directional_maps(position, dir),
        r@.len() == 3,
        forall|i: int| 0 <= i < 3 ==> one_map_ahead(position, #[trigger] r@[i], dir),
        r@.no_duplicates(),
        r@[0].x == position.x + dir_step_x(dir),
        r@[0].y == position.y + dir_step_y(dir),
{
    proof {
        lemma_directional_maps_ahead(position, dir);
    }
    match dir {
        Dir::Down => vec![
            position.map_offset(MapPosDir::Down),
            position.map_offset(MapPosDir::DownLeft),
            position.map_offset(MapPosDir::DownRight),
        ],
        Dir::Right => vec![
            position.map_offset(MapPosDir::Right),
            position.map_offset(MapPosDir::UpRight),
            position.map_offset(MapPosDir::DownRight),
        ],
        Dir::Up => vec![
            position.map_offset(MapPosDir::Up),
            position.map_offset(MapPosDir::UpLeft),
            position.map_offset(MapPosDir::UpRight),
        ],
        Dir::Left => vec![
            position.map_offset(MapPosDir::Left),
            position.map_offset(MapPosDir::UpLeft),
            position.map_offset(MapPosDir::DownLeft),
        ],
    }
}

/// Every map that `get_surrounding_dir` lists is recognised by
/// `check_surrounding` as lying on the side it was tagged with.
pub proof fn lemma_surrounding_dir_round_trip(start: MapPosition, include_corners: bool, i: int)
    requires
        map_offsets_fit(start),
        0 <= i < spec_surrounding_dir(start, include_corners).len(),
    ensures
        map_pos_value(spec_surrounding_dir(start, include_corners)[i]) is Some,
        spec_check_surrounding(
            start,
            map_pos_value(spec_surrounding_dir(start, include_corners)[i])->0,
            include_corners,
        ) == spec_surrounding_dir(start, include_corners)[i],
{
}

/// The tagged and untagged surroundings list the same maps in the same order.
pub proof fn lemma_surrounding_dir_matches_surrounding(start: MapPosition, include_corners: bool, i: int)
    requires
        map_offsets_fit(start),
        0 <= i < spec_surrounding(start, include_corners).len(),
    ensures
        spec_surrounding_dir(start, include_corners).len() == spec_surrounding(start, include_corners).len(),
        map_pos_value(spec_surrounding_dir(start, include_corners)[i]) == Some(spec_surrounding(start, include_corners)[i]),
{
}

/// The maps around `p`, corners included, are exactly the maps of its group
/// at map distance at most one from it.
pub proof fn lemma_surrounding_within_one(p: MapPosition, q: MapPosition)
    requires
        map_offsets_fit(p),
    ensures
        spec_surrounding(p, true).contains(q) <==> spec_map_distance(q, p) <= 1,
{
    let s = spec_surrounding(p, true);
    if spec_map_distance(q, p) <= 1 {
        let dx = q.x - p.x;
        let dy = q.y - p.y;
        let i: int = if dx == 0 && dy == 0 {
            0
        } else if dx == 0 && dy == 1 {
            1
        } else if dx == 0 && dy == -1 {
            2
        } else if dx == -1 && dy == 0 {
            3
        } else if dx == 1 && dy == 0 {
            4
        } else if dx == -1 && dy == 1 {
            5
        } else if dx == 1 && dy == 1 {
            6
        } else if dx == -1 && dy == -1 {
            7
        } else {
            8
        };
        assert(s[i] == q);
    }
    if s.contains(q) {
        let i = choose|i: int| 0 <= i < s.len() && s[i] == q;
        assert(0 <= i < 9);
    }
}

/// The end point `(ex, ey)`, given as seen from map `(sx, sy)`, seen from
/// map `m` instead stays within `i32`.
pub open spec fn shifted_end_fits(ex: int, ey: int, sx: int, sy: int, m: MapPosition) -> bool {
    &&& i32::MIN <= ex + 32 * (m.x - sx) <= i32::MAX
    &&& i32::MIN <= ey + 32 * (m.y - sy) <= i32::MAX
}

/// Every allowed map's neighbours can be named, and the end point seen from
/// it stays within `i32`.
pub open spec fn allowed_fit(allowed: Seq<MapPosition>, ex: int, ey: int, sx: int, sy: int) -> bool {
    forall|m: MapPosition| #[trigger] allowed.contains(m) ==> map_offsets_fit(m) && shifted_end_fits(ex, ey, sx, sy, m)
}

/// The range search's map arithmetic stays within `i32`: the neighbours of
/// the start map and of every allowed map can be named, and `endpos` seen
/// from any allowed map fits.
pub open spec fn search_fits(start: Position, endpos: Position, allowed: Seq<MapPosition>) -> bool {
    &&& map_offsets_fit(start.map)
    &&& allowed_fit(allowed, endpos.x as int, endpos.y as int, start.map.x as int, start.map.y as int)
}

/// `endpos` expressed in the tile coordinates of map `from`: shifted by 32
/// tiles for every map it lies away from `from`.
pub open spec fn spec_relative_to(endpos: Position, from: MapPosition) -> Position {
    Position {
        x: (endpos.x + 32 * (endpos.map.x - from.x)) as i32,
        y: (endpos.y + 32 * (endpos.map.y - from.y)) as i32,
        map: endpos.map,
    }
}

/// `position` is a side (not corner) neighbour of `start`, in the same group.
pub open spec fn side_neighbour(start: MapPosition, position: MapPosition) -> bool {
    &&& start.group == position.group
    &&& {
        let dx = position.x - start.x;
        let dy = position.y - start.y;
        (dx == 0 && (dy == 1 || dy == -1)) || (dy == 0 && (dx == 1 || dx == -1))
    }
}

/// How many allowed maps the search has not processed yet.
pub open spec fn remaining(allowed: Seq<MapPosition>, processed: Seq<MapPosition>) -> nat {
    allowed.to_set().difference(processed.to_set()).len()
}

/// The search's progress measure: unprocessed allowed maps, plus one while the
/// current map is not itself one of them.
pub open spec fn search_measure(allowed: Seq<MapPosition>, processed: Seq<MapPosition>, current: MapPosition) -> nat {
    remaining(allowed, processed) + if allowed.contains(current) && !processed.contains(current) { 0nat } else { 1nat }
}

proof fn lemma_measure_drops(allowed: Seq<MapPosition>, p: Seq<MapPosition>, p2: Seq<MapPosition>, current: MapPosition, next: MapPosition)
    requires
        forall|m: MapPosition| p.contains(m) ==> p2.contains(m),
        p2.contains(current),
        allowed.contains(next),
        !p2.contains(next),
    ensures
        search_measure(allowed, p2, next) < search_measure(allowed, p, current),
{
    let a = allowed.to_set();
    let d1 = a.difference(p.to_set());
    let d2 = a.difference(p2.to_set());
    vstd::seq_lib::seq_to_set_is_finite(allowed);
    vstd::set_lib::lemma_len_difference(a, p.to_set());
    assert(d2.subset_of(d1));
    if allowed.contains(current) && !p.contains(current) {
        assert(d1.contains(current));
        assert(d2.subset_of(d1.remove(current)));
        vstd::set_lib::lemma_len_subset(d2, d1.remove(current));
    } else {
        vstd::set_lib::lemma_len_subset(d2, d1);
    }
}

/// `m` is the map `t` or one of its side neighbours.
pub open spec fn touches(m: MapPosition, t: MapPosition) -> bool {
    m == t || side_neighbour(m, t)
}

/// Step `i` of a walk goes to a side neighbour that is allowed and not
/// blocked.
pub open spec fn path_step(allowed: Seq<MapPosition>, blocked: Seq<MapPosition>, path: Seq<MapPosition>, i: int) -> bool {
    &&& side_neighbour(path[i], path[i + 1])
    &&& allowed.contains(path[i + 1])
    &&& !blocked.contains(path[i + 1])
}

/// A walk from map to side-neighbouring map that, after its first map,
/// steps only on maps in `allowed` and not in `blocked`.
pub open spec fn free_path(allowed: Seq<MapPosition>, blocked: Seq<MapPosition>, path: Seq<MapPosition>) -> bool {
    &&& path.len() >= 1
    &&& forall|i: int| 0 <= i < path.len() - 1 ==> #[trigger] path_step(allowed, blocked, path, i)
}

/// The end map `t` is allowed and some free walk from `start` ends on it or
/// next to it.
pub open spec fn reachable(allowed: Seq<MapPosition>, blocked: Seq<MapPosition>, start: MapPosition, t: MapPosition) -> bool {
    &&& allowed.contains(t)
    &&& exists|path: Seq<MapPosition>| #[trigger] free_path(allowed, blocked, path) && path[0] == start && touches(path.last(), t)
}

/// Some free walk from `start` ends on map `z`.
pub open spec fn in_reach(allowed: Seq<MapPosition>, blocked: Seq<MapPosition>, start: MapPosition, z: MapPosition) -> bool {
    exists|path: Seq<MapPosition>| #[trigger] free_path(allowed, blocked, path) && path[0] == start && path.last() == z
}

/// Some free walk from `start` that ends on the end map `t` or next to it
/// has all its maps in `recorded`.
pub open spec fn walked_to(
    allowed: Seq<MapPosition>,
    blocked: Seq<MapPosition>,
    recorded: Seq<MapPosition>,
    start: MapPosition,
    t: MapPosition,
) -> bool {
    exists|path: Seq<MapPosition>| #[trigger] free_path(allowed, blocked, path) && path[0] == start && touches(path.last(), t)
        && forall|i: int| 0 <= i < path.len() ==> recorded.contains(#[trigger] path[i])
}

/// A free walk from `x` that avoids `before`, preceded by a side neighbour
/// `s` of `x`, is a free walk from `s` that avoids the smaller `p`.
proof fn lemma_prepend_step(
    allowed: Seq<MapPosition>,
    p: Seq<MapPosition>,
    before: Seq<MapPosition>,
    s: MapPosition,
    px: Seq<MapPosition>,
)
    requires
        free_path(allowed, before, px),
        side_neighbour(s, px[0]),
        allowed.contains(px[0]),
        !p.contains(px[0]),
        forall|m: MapPosition| p.contains(m) ==> before.contains(m),
    ensures
        free_path(allowed, p, seq![s] + px),
        (seq![s] + px)[0] == s,
        (seq![s] + px).last() == px.last(),
        forall|i: int| 0 < i < px.len() + 1 ==> (seq![s] + px)[i] == px[i - 1],
{
    let path = seq![s] + px;
    assert forall|i: int| 0 <= i < path.len() - 1 implies #[trigger] path_step(allowed, p, path, i) by {
        if i == 0 {
            assert(path[1] == px[0]);
        } else {
            assert(path_step(allowed, before, px, i - 1));
            assert(path[i] == px[i - 1]);
            assert(path[i + 1] == px[i]);
            if p.contains(px[i]) {
                assert(before.contains(px[i]));
            }
        }
    }
}

/// Every allowed side neighbour of `z` is in `q`.
pub open spec fn closed_in(z: MapPosition, allowed: Seq<MapPosition>, q: Seq<MapPosition>) -> bool {
    forall|x: MapPosition| #[trigger] side_neighbour(z, x) && allowed.contains(x) ==> q.contains(x)
}

/// `z` neither is nor borders the end map `t`, and its allowed side
/// neighbours are all in `q`.
pub open spec fn dead_end(z: MapPosition, allowed: Seq<MapPosition>, q: Seq<MapPosition>, t: MapPosition) -> bool {
    !touches(z, t) && closed_in(z, allowed, q)
}

/// Every map in `q` but not in `p` is a dead end.
pub open spec fn marks_done(allowed: Seq<MapPosition>, p: Seq<MapPosition>, q: Seq<MapPosition>, t: MapPosition) -> bool {
    forall|z: MapPosition| q.contains(z) && !p.contains(z) ==> #[trigger] dead_end(z, allowed, q, t)
}

/// Adding to `q` keeps a map's neighbours inside it.
proof fn lemma_closed_grows(z: MapPosition, allowed: Seq<MapPosition>, q: Seq<MapPosition>, q2: Seq<MapPosition>)
    requires
        closed_in(z, allowed, q),
        forall|m: MapPosition| q.contains(m) ==> q2.contains(m),
    ensures
        closed_in(z, allowed, q2),
{
    assert forall|x: MapPosition| #[trigger] side_neighbour(z, x) && allowed.contains(x) implies q2.contains(x) by {
        assert(q.contains(x));
    }
}

/// The side neighbours of `s` are the four side entries of its surroundings.
proof fn lemma_side_neighbours_listed(s: MapPosition, x: MapPosition)
    requires
        map_offsets_fit(s),
    ensures
        side_neighbour(s, x) <==> exists|j: int| 1 <= j < 5 && map_pos_value(#[trigger] spec_surrounding_dir(s, false)[j]) == Some(x),
{
    let d = spec_surrounding_dir(s, false);
    if side_neighbour(s, x) {
        let dx = x.x - s.x;
        let dy = x.y - s.y;
        if dy == 1 {
            assert(map_pos_value(d[1]) == Some(x));
        } else if dy == -1 {
            assert(map_pos_value(d[2]) == Some(x));
        } else if dx == -1 {
            assert(map_pos_value(d[3]) == Some(x));
        } else {
            assert(map_pos_value(d[4]) == Some(x));
        }
    }
    if exists|j: int| 1 <= j < 5 && map_pos_value(#[trigger] d[j]) == Some(x) {
        let j = choose|j: int| 1 <= j < 5 && map_pos_value(#[trigger] d[j]) == Some(x);
        assert(side_neighbour(s, x));
    }
}

/// Side steps keep the map group, so a walk never touches a map of
/// another group.
proof fn lemma_paths_keep_group(allowed: Seq<MapPosition>, blocked: Seq<MapPosition>, path: Seq<MapPosition>, t: MapPosition)
    requires
        free_path(allowed, blocked, path),
        path[0].group != t.group,
    ensures
        !touches(path.last(), t),
    decreases path.len(),
{
    lemma_group_along(allowed, blocked, path, path.len() - 1);
}

proof fn lemma_group_along(allowed: Seq<MapPosition>, blocked: Seq<MapPosition>, path: Seq<MapPosition>, i: int)
    requires
        free_path(allowed, blocked, path),
        0 <= i < path.len(),
    ensures
        path[i].group == path[0].group,
    decreases i,
{
    if i > 0 {
        lemma_group_along(allowed, blocked, path, i - 1);
        assert(path_step(allowed, blocked, path, i - 1));
    }
}

/// A search that found nothing leaves its start and everything it newly
/// marked away from the end map and with every allowed neighbour marked;
/// then no free walk from the start reaches the end map.
proof fn lemma_exhausted_search(
    allowed: Seq<MapPosition>,
    p: Seq<MapPosition>,
    q: Seq<MapPosition>,
    start: MapPosition,
    t: MapPosition,
    path: Seq<MapPosition>,
    i: int,
)
    requires
        dead_end(start, allowed, q, t),
        marks_done(allowed, p, q, t),
        free_path(allowed, p, path),
        path[0] == start,
        0 <= i < path.len(),
    ensures
        path[i] == start || (q.contains(path[i]) && !p.contains(path[i])),
        !touches(path[i], t),
    decreases i,
{
    if i > 0 {
        lemma_exhausted_search(allowed, p, q, start, t, path, i - 1);
        assert(path_step(allowed, p, path, i - 1));
        assert(dead_end(path[i - 1], allowed, q, t));
        assert(side_neighbour(path[i - 1], path[i]));
        assert(q.contains(path[i]));
        if path[i] != start {
            assert(dead_end(path[i], allowed, q, t));
        }
    }
}

/// Finds `endpos` as seen from the map of `start`, searching outwards through
/// side neighbours that are in `allowed_maps` and not yet in `processed`.
/// `processed` collects the maps searched from. The end point is found
/// exactly when its map is allowed and some walk from the start map over
/// allowed, unprocessed side neighbours ends on it or next to it. Every map
/// recorded is the start map or one such a walk reaches; when the end point
/// was found away from the start map, the maps of such a walk are all
/// recorded; when it was not found though its map is allowed and in the
/// start's group, every map such a walk reaches is recorded. Nothing is
/// recorded when the end map is not allowed, is the start map, or lies in
/// another group.
pub fn map_offset_range(
    start: Position,
    endpos: Position,
    allowed_maps: &Vec<MapPosition>,
    processed: &mut Vec<MapPosition>,
) -> (r: Option<Position>)
    requires
        search_fits(start, endpos, allowed_maps@),
    ensures
        r matches Some(p) ==> p == spec_relative_to(endpos, start.map),
        r is Some <==> reachable(allowed_maps@, old(processed)@, start.map, endpos.map),
        !allowed_maps@.contains(endpos.map) ==> r is None,
        allowed_maps@.contains(endpos.map) && start.map == endpos.map ==> r == Some(endpos),
        start.map.group != endpos.map.group ==> r is None,
        allowed_maps@.contains(endpos.map) && side_neighbour(start.map, endpos.map)
            ==> r == Some(spec_relative_to(endpos, start.map)),
        forall|m: MapPosition| old(processed)@.contains(m) ==> final(processed)@.contains(m),
        forall|z: MapPosition| #[trigger] final(processed)@.contains(z)
            ==> old(processed)@.contains(z) || in_reach(allowed_maps@, old(processed)@, start.map, z),
        r is Some && start.map != endpos.map
            ==> walked_to(allowed_maps@, old(processed)@, final(processed)@, start.map, endpos.map),
        r is None && allowed_maps@.contains(endpos.map) && start.map.group == endpos.map.group
            ==> forall|z: MapPosition| #[trigger] final(processed)@.contains(z)
                <==> old(processed)@.contains(z) || in_reach(allowed_maps@, old(processed)@, start.map, z),
        !allowed_maps@.contains(endpos.map) || start.map == endpos.map || start.map.group != endpos.map.group
            ==> final(processed)@ == old(processed)@,
{
    let r = offset_search(
        start,
        endpos,
        allowed_maps,
        processed,
        Ghost(endpos.x as int),
        Ghost(endpos.y as int),
        Ghost(start.map.x as int),
        Ghost(start.map.y as int),
    );
    proof {
        let t = endpos.map;
        if r is None && reachable(allowed_maps@, old(processed)@, start.map, t) {
            let path = choose|path: Seq<MapPosition>| #[trigger] free_path(allowed_maps@, old(processed)@, path) && path[0] == start.map
                && touches(path.last(), t);
            if start.map.group != t.group {
                lemma_paths_keep_group(allowed_maps@, old(processed)@, path, t);
            } else {
                lemma_exhausted_search(allowed_maps@, old(processed)@, processed@, start.map, t, path, path.len() - 1);
            }
        }
        if r is None && allowed_maps@.contains(t) && start.map.group == t.group {
            assert forall|z: MapPosition| #[trigger] processed@.contains(z)
                <==> old(processed)@.contains(z) || in_reach(allowed_maps@, old(processed)@, start.map, z) by {
                if in_reach(allowed_maps@, old(processed)@, start.map, z) && !old(processed)@.contains(z) {
                    let path = choose|path: Seq<MapPosition>| #[trigger] free_path(allowed_maps@, old(processed)@, path)
                        && path[0] == start.map && path.last() == z;
                    lemma_exhausted_search(allowed_maps@, old(processed)@, processed@, start.map, t, path, path.len() - 1);
                }
            }
        }
    }
    r
}

/// The search state is `endpos` shifted from the first end point
/// `(ex, ey)` as seen from the first start map `(sx, sy)`.
pub open spec fn search_frame(start: MapPosition, endpos: Position, ex: int, ey: int, sx: int, sy: int) -> bool {
    &&& endpos.x == ex + 32 * (start.x - sx)
    &&& endpos.y == ey + 32 * (start.y - sy)
}

fn offset_search(
    start: Position,
    endpos: Position,
    allowed_maps: &Vec<MapPosition>,
    processed: &mut Vec<MapPosition>,
    Ghost(ex): Ghost<int>,
    Ghost(ey): Ghost<int>,
    Ghost(sx): Ghost<int>,
    Ghost(sy): Ghost<int>,
) -> (r: Option<Position>)
    requires
        map_offsets_fit(start.map),
        allowed_fit(allowed_maps@, ex, ey, sx, sy),
        search_frame(start.map, endpos, ex, ey, sx, sy),
    ensures
        r matches Some(p) ==> p == spec_relative_to(endpos, start.map),
        !allowed_maps@.contains(endpos.map) ==> r is None,
        allowed_maps@.contains(endpos.map) && start.map == endpos.map ==> r == Some(endpos),
        start.map.group != endpos.map.group ==> r is None,
        allowed_maps@.contains(endpos.map) && side_neighbour(start.map, endpos.map)
            ==> r == Some(spec_relative_to(endpos, start.map)),
        forall|m: MapPosition| old(processed)@.contains(m) ==> final(processed)@.contains(m),
        r is Some ==> reachable(allowed_maps@, old(processed)@, start.map, endpos.map),
        r is None && allowed_maps@.contains(endpos.map) && start.map.group == endpos.map.group ==> {
            &&& final(processed)@.contains(start.map)
            &&& dead_end(start.map, allowed_maps@, final(processed)@, endpos.map)
            &&& marks_done(allowed_maps@, old(processed)@, final(processed)@, endpos.map)
        },
        forall|z: MapPosition| #[trigger] final(processed)@.contains(z)
            ==> old(processed)@.contains(z) || in_reach(allowed_maps@, old(processed)@, start.map, z),
        r is Some && start.map != endpos.map
            ==> walked_to(allowed_maps@, old(processed)@, final(processed)@, start.map, endpos.map),
        !allowed_maps@.contains(endpos.map) || start.map == endpos.map || start.map.group != endpos.map.group
            ==> final(processed)@ == old(processed)@,
    decreases search_measure(allowed_maps@, old(processed)@, start.map),
{
    let ghost t = endpos.map;
    if !contains_map(allowed_maps, endpos.map) {
        return None;
    }
    if start.map == endpos.map {
        proof {
            let path = seq![start.map];
            assert(free_path(allowed_maps@, old(processed)@, path));
        }
        return Some(endpos);
    }
    if start.map.group != endpos.map.group {
        return None;
    }
    proof {
        assert(map_offsets_fit(endpos.map) && shifted_end_fits(ex, ey, sx, sy, endpos.map));
    }

    let map_positions = get_surrounding_dir(start.map, false);
    let ghost p0 = processed@;
    processed.push(start.map);
    proof {
        assert(processed@[processed@.len() - 1] == start.map);
        assert forall|m: MapPosition| p0.contains(m) implies processed@.contains(m) by {
            let j = choose|j: int| 0 <= j < p0.len() && p0[j] == m;
            assert(processed@[j] == m);
        }
        assert(free_path(allowed_maps@, p0, seq![start.map]));
        assert(in_reach(allowed_maps@, p0, start.map, start.map));
        assert forall|z: MapPosition| #[trigger] processed@.contains(z) implies p0.contains(z)
            || in_reach(allowed_maps@, p0, start.map, z) by {
            if z != start.map {
                let j = choose|j: int| 0 <= j < processed@.len() && processed@[j] == z;
                assert(p0[j] == z);
            }
        }
    }
    let ghost p1 = processed@;

    // A side neighbour holding the end point: answer at once.
    let mut i: usize = 0;
    while i < map_positions.len()
        invariant
            i <= map_positions@.len(),
            map_positions@ == spec_surrounding_dir(start.map, false),
            map_offsets_fit(start.map),
            map_offsets_fit(endpos.map),
            shifted_end_fits(ex, ey, sx, sy, endpos.map),
            search_frame(start.map, endpos, ex, ey, sx, sy),
            allowed_maps@.contains(endpos.map),
            start.map != endpos.map,
            processed@ == p1,
            t == endpos.map,
            p1.contains(start.map),
            forall|m: MapPosition| old(processed)@.contains(m) ==> p1.contains(m),
            forall|z: MapPosition| #[trigger] p1.contains(z) ==> old(processed)@.contains(z)
                || in_reach(allowed_maps@, old(processed)@, start.map, z),
            forall|j: int| 0 <= j < i ==> map_pos_value(#[trigger] map_positions@[j]) != Some(endpos.map),
        decreases map_positions@.len() - i,
    {
        let map_pos = map_positions[i];
        if map_pos.contains(endpos.map) {
            proof {
                if i >= 1 {
                    lemma_side_neighbours_listed(start.map, endpos.map);
                    assert(map_pos_value(spec_surrounding_dir(start.map, false)[i as int]) == Some(endpos.map));
                }
                let path = seq![start.map];
                assert(free_path(allowed_maps@, old(processed)@, path));
                assert(touches(path.last(), t));
                assert(forall|k: int| 0 <= k < path.len() ==> processed@.contains(#[trigger] path[k]));
            }
            return Some(endpos.map_offset(map_pos.dir()));
        }
        i = i + 1;
    }
    assert(!side_neighbour(start.map, endpos.map)) by {
        lemma_side_neighbours_listed(start.map, endpos.map);
    }

    // Otherwise search onwards from each allowed, unprocessed neighbour.
    let mut k: usize = 0;
    while k < map_positions.len()
        invariant
            k <= map_positions@.len(),
            map_positions@ == spec_surrounding_dir(start.map, false),
            map_offsets_fit(start.map),
            allowed_fit(allowed_maps@, ex, ey, sx, sy),
            search_frame(start.map, endpos, ex, ey, sx, sy),
            allowed_maps@.contains(endpos.map),
            start.map.group == endpos.map.group,
            start.map != endpos.map,
            t == endpos.map,
            !side_neighbour(start.map, endpos.map),
            processed@.contains(start.map),
            forall|m: MapPosition| p0.contains(m) ==> processed@.contains(m),
            forall|m: MapPosition| old(processed)@.contains(m) ==> processed@.contains(m),
            p0 == old(processed)@,
            forall|j: int| 0 <= j < k ==> match map_pos_value(#[trigger] map_positions@[j]) {
                Some(x) => !allowed_maps@.contains(x) || processed@.contains(x),
                None => true,
            },
            forall|z: MapPosition| processed@.contains(z) && !p0.contains(z) && z != start.map
                ==> #[trigger] dead_end(z, allowed_maps@, processed@, endpos.map),
            forall|z: MapPosition| #[trigger] processed@.contains(z) ==> p0.contains(z) || in_reach(allowed_maps@, p0, start.map, z),
        decreases map_positions@.len() - k,
    {
        let map_pos = map_positions[k];
        let ghost before = processed@;
        k = k + 1;
        let x = match map_pos.get() {
            Some(x) => x,
            None => continue,
        };
        if !contains_map(allowed_maps, x) || contains_map(processed, x) {
            continue;
        }
        let dir = map_pos.dir();
        proof {
            assert(map_offsets_fit(x) && shifted_end_fits(ex, ey, sx, sy, x));
            lemma_measure_drops(allowed_maps@, p0, processed@, start.map, x);
            if k - 1 >= 1 {
                lemma_side_neighbours_listed(start.map, x);
            }
            assert(side_neighbour(start.map, x));
        }
        let end = endpos.map_offset(dir);
        let pos = Position::new(0, 0, x);
        let ret = offset_search(pos, end, allowed_maps, processed, Ghost(ex), Ghost(ey), Ghost(sx), Ghost(sy));
        proof {
            assert(end.map == t);
            assert(x != t);
            assert forall|z: MapPosition| #[trigger] processed@.contains(z) implies p0.contains(z)
                || in_reach(allowed_maps@, p0, start.map, z) by {
                if !before.contains(z) {
                    assert(in_reach(allowed_maps@, before, x, z));
                    let px = choose|path: Seq<MapPosition>| #[trigger] free_path(allowed_maps@, before, path) && path[0] == x
                        && path.last() == z;
                    lemma_prepend_step(allowed_maps@, p0, before, start.map, px);
                    assert(free_path(allowed_maps@, p0, seq![start.map] + px));
                }
            }
        }
        if ret.is_some() {
            proof {
                assert(walked_to(allowed_maps@, before, processed@, x, t));
                let px = choose|path: Seq<MapPosition>| #[trigger] free_path(allowed_maps@, before, path) && path[0] == x
                    && touches(path.last(), t) && forall|i: int| 0 <= i < path.len() ==> processed@.contains(#[trigger] path[i]);
                lemma_prepend_step(allowed_maps@, p0, before, start.map, px);
                let path = seq![start.map] + px;
                assert(free_path(allowed_maps@, p0, path));
                assert forall|i: int| 0 <= i < path.len() implies processed@.contains(#[trigger] path[i]) by {
                    if i > 0 {
                        assert(path[i] == px[i - 1]);
                    }
                }
                assert(reachable(allowed_maps@, p0, start.map, t));
                assert(walked_to(allowed_maps@, p0, processed@, start.map, t));
            }
            return ret;
        }
        proof {
            assert forall|z: MapPosition| processed@.contains(z) && !p0.contains(z) && z != start.map
                implies #[trigger] dead_end(z, allowed_maps@, processed@, endpos.map) by {
                if before.contains(z) {
                    assert(dead_end(z, allowed_maps@, before, endpos.map));
                    lemma_closed_grows(z, allowed_maps@, before, processed@);
                } else {
                    assert(dead_end(z, allowed_maps@, processed@, t));
                }
            }
            assert forall|j: int| 0 <= j < k implies match map_pos_value(#[trigger] map_positions@[j]) {
                Some(y) => !allowed_maps@.contains(y) || processed@.contains(y),
                None => true,
            } by {
                if j < k - 1 {
                    if let Some(y) = map_pos_value(map_positions@[j]) {
                        if allowed_maps@.contains(y) {
                            assert(before.contains(y));
                        }
                    }
                }
            }
        }
    }
    proof {
        assert forall|x: MapPosition| #[trigger] side_neighbour(start.map, x) && allowed_maps@.contains(x) implies processed@.contains(x) by {
            lemma_side_neighbours_listed(start.map, x);
            let j = choose|j: int| 1 <= j < 5 && map_pos_value(#[trigger] spec_surrounding_dir(start.map, false)[j]) == Some(x);
            assert(map_pos_value(map_positions@[j]) == Some(x));
        }
        assert(closed_in(start.map, allowed_maps@, processed@));
        assert(dead_end(start.map, allowed_maps@, processed@, endpos.map));
        assert forall|z: MapPosition| processed@.contains(z) && !p0.contains(z)
            implies #[trigger] dead_end(z, allowed_maps@, processed@, endpos.map) by {
        }
    }
    None
}

/// Whether `m` is among `maps`.
pub fn contains_map(maps: &Vec<MapPosition>, m: MapPosition) -> (r: bool)
    ensures
        r == maps@.contains(m),
{
    let mut i: usize = 0;
    while i < maps.len()
        invariant
            i <= maps@.len(),
            forall|j: int| 0 <= j < i ==> maps@[j] != m,
        decreases maps@.len() - i,
    {
        if maps[i] == m {
            assert(maps@[i as int] == m);
            return true;
        }
        i += 1;
    }
    false
}

/// Whether the neighbour in direction `d` of the map of `pos` lies within
/// `range` tiles of it. (The up-right and down-right corners count only
/// when `pos.x + range < 0`.)
pub open spec fn dir_reaches(d: MapPosDir, pos: Position, range: int) -> bool {
    match d {
        MapPosDir::Outside => false,
        MapPosDir::UpLeft => pos.x - range < 0 && pos.y - range < 0,
        MapPosDir::Up => pos.y - range < 0,
        MapPosDir::UpRight => pos.x + range < 0 && pos.y - range < 0,
        MapPosDir::Left => pos.x - range < 0,
        MapPosDir::Center => true,
        MapPosDir::Right => pos.x + range >= 32,
        MapPosDir::DownLeft => pos.x - range < 0 && pos.y + range >= 32,
        MapPosDir::Down => pos.y + range >= 32,
        MapPosDir::DownRight => pos.x + range < 0 && pos.y + range >= 32,
    }
}

/// A surrounding map that exists (is among `known`) and lies within reach.
pub open spec fn map_in_range(known: Seq<MapPosition>, pos: Position, range: int, m: MapPos) -> bool {
    &&& map_pos_value(m) is Some
    &&& known.contains(map_pos_value(m)->0)
    &&& dir_reaches(map_pos_dir(m), pos, range)
}

/// `pos +- range` on both axes stays within `i32`.
pub open spec fn range_fits(pos: Position, range: int) -> bool {
    &&& i32::MIN <= pos.x - range <= i32::MAX
    &&& i32::MIN <= pos.x + range <= i32::MAX
    &&& i32::MIN <= pos.y - range <= i32::MAX
    &&& i32::MIN <= pos.y + range <= i32::MAX
}

fn reaches(d: MapPosDir, pos: Position, range: i32) -> (r: bool)
    requires
        range_fits(pos, range as int),
    ensures
        r == dir_reaches(d, pos, range as int),
{
    match d {
        MapPosDir::Outside => false,
        MapPosDir::UpLeft => pos.x - range < 0 && pos.y - range < 0,
        MapPosDir::Up => pos.y - range < 0,
        MapPosDir::UpRight => pos.x + range < 0 && pos.y - range < 0,
        MapPosDir::Left => pos.x - range < 0,
        MapPosDir::Center => true,
        MapPosDir::Right => pos.x + range >= 32,
        MapPosDir::DownLeft => pos.x - range < 0 && pos.y + range >= 32,
        MapPosDir::Down => pos.y + range >= 32,
        MapPosDir::DownRight => pos.x + range < 0 && pos.y + range >= 32,
    }
}

/// The surrounding maps (corners included, centre first) that exist and
/// that a `range` around `position` reaches into, each tagged with its side.
pub fn get_map_dir_pos_in_range(known: &Vec<MapPosition>, position: &Position, range: i32) -> (r: Vec<MapPos>)
    requires
        map_offsets_fit(position.map),
        range_fits(*position, range as int),
    ensures
        r@ == spec_surrounding_dir(position.map, true).filter(|m: MapPos| map_in_range(known@, *position, range as int, m)),
{
    let around = get_surrounding_dir(position.map, true);
    let ghost all = around@;
    let mut arr: Vec<MapPos> = Vec::new();
    let mut i: usize = 0;
    while i < around.len()
        invariant
            i <= all.len(),
            around@ == all,
            range_fits(*position, range as int),
            arr@ == all.take(i as int).filter(|m: MapPos| map_in_range(known@, *position, range as int, m)),
        decreases all.len() - i,
    {
        proof {
            assert(all.take(i as int + 1).drop_last() =~= all.take(i as int));
            reveal(Seq::filter);
        }
        let pos = around[i];
        match pos.get() {
            Some(map_position) => {
                if contains_map(known, map_position) && reaches(pos.dir(), *position, range) {
                    arr.push(pos);
                }
            },
            None => {},
        }
        assert(arr@ =~= all.take(i as int + 1).filter(|m: MapPos| map_in_range(known@, *position, range as int, m)));
        i += 1;
    }
    assert(all.take(all.len() as int) =~= all);
    arr
}

/// The same maps as `get_map_dir_pos_in_range`, untagged.
pub fn get_map_pos_in_range(known: &Vec<MapPosition>, position: &Position, range: i32) -> (r: Vec<MapPosition>)
    requires
        map_offsets_fit(position.map),
        range_fits(*position, range as int),
    ensures
        r@ == spec_surrounding_dir(position.map, true).filter(|m: MapPos| map_in_range(known@, *position, range as int, m)).map_values(
            |m: MapPos| map_pos_value(m)->0,
        ),
{
    let found = get_map_dir_pos_in_range(known, position, range);
    let ghost picked = found@;
    let mut arr: Vec<MapPosition> = Vec::new();
    let mut i: usize = 0;
    while i < found.len()
        invariant
            i <= picked.len(),
            found@ == picked,
            arr@ == picked.take(i as int).map_values(|m: MapPos| map_pos_value(m)->0),
            forall|k: int| 0 <= k < picked.len() ==> map_pos_value(#[trigger] picked[k]) is Some,
        decreases picked.len() - i,
    {
        let v = found[i].get();
        proof {
            assert(map_pos_value(picked[i as int]) is Some);
        }
        arr.push(v.unwrap());
        assert(arr@ =~= picked.take(i as int + 1).map_values(|m: MapPos| map_pos_value(m)->0));
        i += 1;
    }
    assert(picked.take(picked.len() as int) =~= picked);
    arr
}

/// The maps around `position`, corners included, as a collection without
/// repeats.
pub fn get_surrounding_set(position: MapPosition) -> (r: Vec<MapPosition>)
    requires
        map_offsets_fit(position),
    ensures
        r@.to_set() == spec_surrounding(position, true).to_set(),
        r@.no_duplicates(),
{
    let r = get_surrounding(position, true);
    proof {
        let s = spec_surrounding(position, true);
        assert forall|i: int, j: int| 0 <= i < s.len() && 0 <= j < s.len() && i != j implies s[i] != s[j] by {}
    }
    r
}

} // verus!
