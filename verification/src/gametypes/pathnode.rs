use vstd::prelude::*;

use crate::gametypes::position::Position;

verus! {

/// A node of a path search: its costs, the node it was reached from, its
/// tile, the direction taken to reach it and its offset.
#[derive(Copy, Clone, Debug, PartialEq, Eq, Structural)]
pub struct PathNode {
    pub g: i32,
    pub h: i32,
    pub f: i32,
    pub parent: Option<usize>,
    pub pos: Position,
    pub dir: u8,
    pub offset: Position,
}

impl PathNode {
    /// A node with no costs counted yet.
    pub fn new(pos: Position, dir: u8, offset: Position, parent: Option<usize>) -> (r: PathNode)
        ensures
            r == (PathNode { g: 0, h: 0, f: 0, parent, pos, dir, offset }),
    {
        PathNode { g: 0, h: 0, f: 0, parent, pos, dir, offset }
    }
}

} // verus!
