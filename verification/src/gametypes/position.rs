use vstd::prelude::*;

use crate::gametypes::enums::{dir_step_x, dir_step_y, Dir, MapPosDir};
use crate::gametypes::map_position::{
    abs_int, dir_dx, dir_dy, direction_fits, distance_fits, grid_distance, map_offsets_fit, MapPosition,
};

verus! {

/// A tile on a map: tile column, tile row and the map.
#[derive(Copy, Clone, Debug, PartialEq, Eq, Structural, Hash)]
pub struct Position {
    pub x: i32,
    pub y: i32,
    pub map: MapPosition,
}

/// The tile lies on its map's 32 x 32 grid.
pub open spec fn on_map(p: Position) -> bool {
    0 <= p.x < 32 && 0 <= p.y < 32
}

/// Row-major index of an on-map tile.
pub open spec fn tile_index(p: Position) -> int {
    p.y * 32 + p.x
}

/// The distance between two positions, by their tile coordinates alone.
pub open spec fn spec_distance(a: Position, b: Position) -> int {
    grid_distance(a.x - b.x, a.y - b.y)
}

/// The coordinates of `p` seen from its neighbour in direction `dir`.
pub open spec fn spec_position_offset(p: Position, dir: MapPosDir) -> Position {
    Position { x: (p.x + 32 * dir_dx(dir)) as i32, y: (p.y + 32 * dir_dy(dir)) as i32, map: p.map }
}

/// The coordinates of `p` seen from its neighbour in direction `dir` can be
/// computed in `i32`.
pub open spec fn position_step_fits(p: Position, dir: MapPosDir) -> bool {
    &&& i32::MIN <= p.x + 32 * dir_dx(dir) <= i32::MAX
    &&& i32::MIN <= p.y + 32 * dir_dy(dir) <= i32::MAX
}

/// The position reached from `(x, y)` on `map` when a coordinate one step off
/// the map wraps onto the neighbouring map.
pub open spec fn spec_new_offset(x: i32, y: i32, map: MapPosition) -> Position {
    let (nx, mx) = if x < 0 {
        (31i32, map.x - 1)
    } else if x >= 32 {
        (0i32, map.x + 1)
    } else {
        (x, map.x as int)
    };
    let (ny, my) = if y < 0 {
        (31i32, map.y - 1)
    } else if y >= 32 {
        (0i32, map.y + 1)
    } else {
        (y, map.y as int)
    };
    Position { x: nx, y: ny, map: MapPosition { x: mx as i32, y: my as i32, group: map.group } }
}

/// The direction from `a` towards `b`: the axis with the larger difference
/// decides; equal differences give none.
pub open spec fn spec_direction(a: Position, b: Position) -> Option<Dir> {
    let dx = a.x - b.x;
    let dy = a.y - b.y;
    if abs_int(dx) > abs_int(dy) {
        if dx > 0 { Some(Dir::Left) } else { Some(Dir::Right) }
    } else if abs_int(dy) > abs_int(dx) {
        if dy > 0 { Some(Dir::Down) } else { Some(Dir::Up) }
    } else {
        None
    }
}

/// The direction from `a` towards `b` says where `b` lies: there is none
/// exactly when `b` is as far off along both axes; otherwise it points along
/// the axis on which `b` is further off, and a step that way brings `a`
/// closer to `b`.
pub proof fn lemma_direction_points_at_target(a: Position, b: Position)
    ensures
        spec_direction(a, b) is None <==> abs_int(a.x - b.x) == abs_int(a.y - b.y),
        spec_direction(a, b) matches Some(d) ==> {
            &&& abs_int(a.x + dir_step_x(d) - b.x) + abs_int(a.y + dir_step_y(d) - b.y)
                < abs_int(a.x - b.x) + abs_int(a.y - b.y)
            &&& abs_int(a.x - b.x) > abs_int(a.y - b.y) ==> dir_step_y(d) == 0
            &&& abs_int(a.y - b.y) > abs_int(a.x - b.x) ==> dir_step_x(d) == 0
        },
{
}

/// The tile distance between two tiles: zero exactly on the same tile, the
/// same both ways, never less than the larger axis difference nor more than
/// the sum of both; so tiles touching at a side or a corner are one apart.
pub proof fn lemma_distance_bounds(a: Position, b: Position)
    ensures
        spec_distance(a, b) == 0 <==> (a.x == b.x && a.y == b.y),
        spec_distance(a, b) == spec_distance(b, a),
        spec_distance(a, b) >= abs_int(a.x - b.x),
        spec_distance(a, b) >= abs_int(a.y - b.y),
        spec_distance(a, b) <= abs_int(a.x - b.x) + abs_int(a.y - b.y),
        abs_int(a.x - b.x) <= 1 && abs_int(a.y - b.y) <= 1 && !(a.x == b.x && a.y == b.y) ==> spec_distance(a, b) == 1,
{
}

impl Default for Position {
    fn default() -> (r: Position)
        ensures
            r == (Position { x: 0, y: 0, map: MapPosition { x: 0, y: 0, group: 0 } }),
    {
        Position { x: 0, y: 0, map: MapPosition::default() }
    }
}

impl Position {
    pub fn new(x: i32, y: i32, map: MapPosition) -> (r: Position)
        ensures
            r == (Position { x, y, map }),
    {
        Position { x, y, map }
    }

    /// Builds a position, wrapping a coordinate that lies off the map onto
    /// the neighbouring map.
    pub fn new_offset(x: i32, y: i32, map: MapPosition) -> (r: Position)
        requires
            map_offsets_fit(map),
        ensures
            r == spec_new_offset(x, y, map),
    {
        let mut position = Position { x, y, map };

        if position.x < 0 {
            position.x = 31;
            position.map.x = position.map.x - 1;
        } else if position.x >= 32 {
            position.x = 0;
            position.map.x = position.map.x + 1;
        }
        if position.y < 0 {
            position.y = 31;
            position.map.y = position.map.y - 1;
        } else if position.y >= 32 {
            position.y = 0;
            position.map.y = position.map.y + 1;
        }
        position
    }

    /// The position, if `(x, y)` lies on the map's grid.
    pub fn new_checked(x: i32, y: i32, map: MapPosition) -> (r: Option<Position>)
        ensures
            r == (if 0 <= x < 32 && 0 <= y < 32 { Some(Position { x, y, map }) } else { None }),
    {
        if !(0 <= x && x < 32) || !(0 <= y && y < 32) {
            None
        } else {
            Some(Position { x, y, map })
        }
    }

    /// Whether the coordinates lie off the map's grid.
    pub fn left_map(&self) -> (r: bool)
        ensures
            r == !on_map(*self),
    {
        self.x < 0 || self.x >= 32 || self.y < 0 || self.y >= 32
    }

    /// Distance in tiles to `target`, by tile coordinates alone.
    pub fn checkdistance(&self, target: Position) -> (r: i32)
        requires
            distance_fits(self.x - target.x, self.y - target.y),
        ensures
            r == spec_distance(*self, target),
            r == 0 <==> (self.x == target.x && self.y == target.y),
            r >= abs_int(self.x - target.x),
            r >= abs_int(self.y - target.y),
            r <= abs_int(self.x - target.x) + abs_int(self.y - target.y),
            abs_int(self.x - target.x) <= 1 && abs_int(self.y - target.y) <= 1
                && !(self.x == target.x && self.y == target.y) ==> r == 1,
    {
        proof {
            lemma_distance_bounds(*self, target);
        }
        let x = self.x - target.x;
        let y = self.y - target.y;

        if x == 0 {
            return if y < 0 { -y } else { y };
        }
        if y == 0 {
            return if x < 0 { -x } else { x };
        }
        let ax = if x < 0 { -x } else { x };
        let ay = if y < 0 { -y } else { y };
        ((ax as i64) + (ay as i64) - 1) as i32
    }

    /// Direction from this position towards `target`.
    pub fn checkdirection(&self, target: Position) -> (r: Option<Dir>)
        requires
            direction_fits(self.x - target.x, self.y - target.y),
        ensures
            r == spec_direction(*self, target),
            r is None <==> abs_int(self.x - target.x) == abs_int(self.y - target.y),
            r matches Some(d) ==> {
                &&& abs_int(self.x + dir_step_x(d) - target.x) + abs_int(self.y + dir_step_y(d) - target.y)
                    < abs_int(self.x - target.x) + abs_int(self.y - target.y)
                &&& abs_int(self.x - target.x) > abs_int(self.y - target.y) ==> dir_step_y(d) == 0
                &&& abs_int(self.y - target.y) > abs_int(self.x - target.x) ==> dir_step_x(d) == 0
            },
    {
        proof {
            lemma_direction_points_at_target(*self, target);
        }
        let dx = self.x - target.x;
        let dy = self.y - target.y;
        let abs_dx = if dx < 0 { -dx } else { dx };
        let abs_dy = if dy < 0 { -dy } else { dy };

        if abs_dx > abs_dy {
            if dx > 0 { Some(Dir::Left) } else { Some(Dir::Right) }
        } else if abs_dy > abs_dx {
            if dy > 0 { Some(Dir::Down) } else { Some(Dir::Up) }
        } else {
            None
        }
    }

    /// These coordinates as seen from the neighbouring map in direction `dir`:
    /// shifted by one map width or height, map unchanged.
    pub fn map_offset(&self, dir: MapPosDir) -> (r: Position)
        requires
            position_step_fits(*self, dir),
        ensures
            r == spec_position_offset(*self, dir),
    {
        match dir {
            MapPosDir::UpLeft => Position::new(self.x - 32, self.y + 32, self.map),
            MapPosDir::Up => Position::new(self.x, self.y + 32, self.map),
            MapPosDir::UpRight => Position::new(self.x + 32, self.y + 32, self.map),
            MapPosDir::Left => Position::new(self.x - 32, self.y, self.map),
            MapPosDir::Outside | MapPosDir::Center => Position::new(self.x, self.y, self.map),
            MapPosDir::Right => Position::new(self.x + 32, self.y, self.map),
            MapPosDir::DownLeft => Position::new(self.x - 32, self.y - 32, self.map),
            MapPosDir::Down => Position::new(self.x, self.y - 32, self.map),
            MapPosDir::DownRight => Position::new(self.x + 32, self.y - 32, self.map),
        }
    }

    /// Row-major index of the tile on its map's grid.
    pub fn as_tile(&self) -> (r: usize)
        requires
            on_map(*self),
        ensures
            r == tile_index(*self),
            r < 1024,
    {
        ((self.y * 32) + self.x) as usize
    }
}

/// Whether `attacker` is within `range` tiles of `target`.
pub fn in_range(range: i32, target: Position, attacker: Position) -> (r: bool)
    requires
        distance_fits(attacker.x - target.x, attacker.y - target.y),
    ensures
        r == (spec_distance(attacker, target) <= range),
{
    attacker.checkdistance(target) <= range
}

} // verus!
