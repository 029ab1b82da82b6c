use vstd::prelude::*;

use crate::gametypes::enums::MapPosDir;

verus! {

/// |v| as a mathematical integer.
pub open spec fn abs_int(v: int) -> int {
    if v < 0 { -v } else { v }
}

/// Distance between two cells as the game measures it, from their differences
/// along each axis: the Manhattan distance, less one when they differ along both.
pub open spec fn grid_distance(dx: int, dy: int) -> int {
    if dx == 0 {
        abs_int(dy)
    } else if dy == 0 {
        abs_int(dx)
    } else {
        abs_int(dx) + abs_int(dy) - 1
    }
}

/// The differences `dx`, `dy` and their distance can be computed in `i32`.
pub open spec fn distance_fits(dx: int, dy: int) -> bool {
    &&& i32::MIN < dx <= i32::MAX
    &&& i32::MIN < dy <= i32::MAX
    &&& abs_int(dx) + abs_int(dy) <= i32::MAX + 1
}

/// The differences `dx`, `dy` and their absolute values can be computed in
/// `i32`.
pub open spec fn direction_fits(dx: int, dy: int) -> bool {
    &&& i32::MIN < dx <= i32::MAX
    &&& i32::MIN < dy <= i32::MAX
}

/// Column and row offset, in maps, of a neighbouring map in direction `dir`.
pub open spec fn dir_dx(dir: MapPosDir) -> int {
    match dir {
        MapPosDir::UpLeft | MapPosDir::Left | MapPosDir::DownLeft => -1,
        MapPosDir::UpRight | MapPosDir::Right | MapPosDir::DownRight => 1,
        _ => 0,
    }
}

pub open spec fn dir_dy(dir: MapPosDir) -> int {
    match dir {
        MapPosDir::UpLeft | MapPosDir::Up | MapPosDir::UpRight => 1,
        MapPosDir::DownLeft | MapPosDir::Down | MapPosDir::DownRight => -1,
        _ => 0,
    }
}

/// A map's place in the seamless world: its column, row and map group.
#[derive(Copy, Clone, Debug, PartialEq, Eq, Structural, Hash)]
pub struct MapPosition {
    pub x: i32,
    pub y: i32,
    pub group: i32,
}

/// The map one step from `m` in direction `dir`.
pub open spec fn spec_map_offset(m: MapPosition, dir: MapPosDir) -> MapPosition {
    MapPosition { x: (m.x + dir_dx(dir)) as i32, y: (m.y + dir_dy(dir)) as i32, group: m.group }
}

/// The map one step from `m` in direction `dir` can be named without
/// leaving `i32`.
pub open spec fn map_step_fits(m: MapPosition, dir: MapPosDir) -> bool {
    &&& i32::MIN <= m.x + dir_dx(dir) <= i32::MAX
    &&& i32::MIN <= m.y + dir_dy(dir) <= i32::MAX
}

/// The neighbours of `m` can be named without leaving `i32`.
pub open spec fn map_offsets_fit(m: MapPosition) -> bool {
    i32::MIN < m.x < i32::MAX && i32::MIN < m.y < i32::MAX
}

/// The distance between two maps: 5000 across groups, else the grid distance.
pub open spec fn spec_map_distance(a: MapPosition, b: MapPosition) -> int {
    if a.group != b.group {
        5000
    } else {
        grid_distance(a.x - b.x, a.y - b.y)
    }
}

/// The direction that leads back: up and down, left and right and the
/// corners swap; the centre and outside stay.
pub open spec fn opposite_dir(d: MapPosDir) -> MapPosDir {
    match d {
        MapPosDir::UpLeft => MapPosDir::DownRight,
        MapPosDir::Up => MapPosDir::Down,
        MapPosDir::UpRight => MapPosDir::DownLeft,
        MapPosDir::Left => MapPosDir::Right,
        MapPosDir::Right => MapPosDir::Left,
        MapPosDir::DownLeft => MapPosDir::UpRight,
        MapPosDir::Down => MapPosDir::Up,
        MapPosDir::DownRight => MapPosDir::UpLeft,
        MapPosDir::Center => MapPosDir::Center,
        MapPosDir::Outside => MapPosDir::Outside,
    }
}

/// A step to a neighbouring map and a step back in the opposite direction
/// return to the map left; a step anywhere but the centre or outside leaves
/// the map.
pub proof fn lemma_map_offset_round_trip(m: MapPosition, d: MapPosDir)
    requires
        map_step_fits(m, d),
    ensures
        map_step_fits(spec_map_offset(m, d), opposite_dir(d)),
        spec_map_offset(spec_map_offset(m, d), opposite_dir(d)) == m,
        d != MapPosDir::Center && d != MapPosDir::Outside ==> spec_map_offset(m, d) != m,
{
}

impl Default for MapPosition {
    fn default() -> (r: MapPosition)
        ensures
            r == (MapPosition { x: 0, y: 0, group: 0 }),
    {
        MapPosition { x: 0, y: 0, group: 0 }
    }
}

impl MapPosition {
    pub fn new(x: i32, y: i32, group: i32) -> (r: MapPosition)
        ensures
            r == (MapPosition { x, y, group }),
    {
        MapPosition { x, y, group }
    }

    /// Distance in maps to `target`; maps of another group count as 5000 apart.
    pub fn checkdistance(&self, target: MapPosition) -> (r: i32)
        requires
            self.group == target.group ==> distance_fits(self.x - target.x, self.y - target.y),
        ensures
            r == spec_map_distance(*self, target),
    {
        if self.group != target.group {
            return 5000;
        }
        let x = self.x - target.x;
        let y = self.y - target.y;

        if x == 0 {
            return if y < 0 { -y } else { y };
        }
        if y == 0 {
            return if x < 0 { -x } else { x };
        }
        let ax = if x < 0 { -x } else { x };
        let ay = if y < 0 { -y } else { y };
        ((ax as i64) + (ay as i64) - 1) as i32
    }

    /// The map one step away in direction `dir` (`None` and `Center` stay put).
    pub fn map_offset(&self, dir: MapPosDir) -> (r: MapPosition)
        requires
            map_step_fits(*self, dir),
        ensures
            r == spec_map_offset(*self, dir),
    {
        match dir {
            MapPosDir::UpLeft => MapPosition::new(self.x - 1, self.y + 1, self.group),
            MapPosDir::Up => MapPosition::new(self.x, self.y + 1, self.group),
            MapPosDir::UpRight => MapPosition::new(self.x + 1, self.y + 1, self.group),
            MapPosDir::Left => MapPosition::new(self.x - 1, self.y, self.group),
            MapPosDir::Outside | MapPosDir::Center => MapPosition::new(self.x, self.y, self.group),
            MapPosDir::Right => MapPosition::new(self.x + 1, self.y, self.group),
            MapPosDir::DownLeft => MapPosition::new(self.x - 1, self.y - 1, self.group),
            MapPosDir::Down => MapPosition::new(self.x, self.y - 1, self.group),
            MapPosDir::DownRight => MapPosition::new(self.x + 1, self.y - 1, self.group),
        }
    }
}

} // verus!
