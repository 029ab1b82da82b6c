use vstd::prelude::*;

use crate::gametypes::enums::{target_position, target_with_position, Target};
use crate::gametypes::position::Position;
use crate::time_ext::MyInstant;

verus! {

/// What an entity aims at, and since when.
#[derive(Copy, Clone, Debug, PartialEq, Eq)]
pub struct Targeting {
    pub target: Target,
    pub timer: MyInstant,
}

impl Targeting {
    /// The target moved to `position`.
    pub fn update_pos(&mut self, position: Position)
        ensures
            final(self).target == target_with_position(old(self).target, position),
            final(self).timer == old(self).timer,
    {
        self.target.update_pos(position);
    }

    /// Where the target is, if it has a place.
    pub fn get_pos(&self) -> (r: Option<Position>)
        ensures
            r == target_position(self.target),
    {
        self.target.get_pos()
    }
}

} // verus!
