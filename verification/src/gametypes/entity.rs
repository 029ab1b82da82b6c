use vstd::prelude::*;

use crate::identity::GlobalKey;
use crate::time_ext::MyInstant;

verus! {

/// When a connection that has not logged in yet is dropped.
#[derive(Copy, Clone, Debug, PartialEq, Eq, Structural)]
pub struct ConnectionLoginTimer(pub MyInstant);

/// The entity a player aims at, if any.
#[derive(Copy, Clone, Debug, PartialEq, Eq, Structural)]
pub struct PlayerTarget(pub Option<GlobalKey>);

impl Default for PlayerTarget {
    fn default() -> (r: PlayerTarget)
        ensures
            r.0 is None,
    {
        PlayerTarget(None)
    }
}

/// Kills counted since `killcounttimer`.
#[derive(Copy, Clone, Debug, PartialEq, Eq, Structural)]
pub struct KillCount {
    pub count: u32,
    pub killcounttimer: MyInstant,
}

impl KillCount {
    /// No kills yet, counting from `now`.
    pub fn new(now: MyInstant) -> (r: KillCount)
        ensures
            r == (KillCount { count: 0, killcounttimer: now }),
    {
        KillCount { count: 0, killcounttimer: now }
    }
}

/// When an entity last entered combat.
#[derive(Copy, Clone, Debug, PartialEq, Eq, Structural)]
pub struct Combat(pub MyInstant);

/// Ten free values scripts keep on an entity.
#[derive(Copy, Clone, Debug, PartialEq, Eq)]
pub struct EntityData(pub [i64; 10]);

impl Default for EntityData {
    fn default() -> (r: EntityData)
        ensures
            forall|i: int| 0 <= i < 10 ==> r.0[i] == 0,
    {
        EntityData([0; 10])
    }
}

#[derive(Copy, Clone, Debug, PartialEq, Eq, Structural)]
pub struct Hidden(pub bool);

#[derive(Copy, Clone, Debug, PartialEq, Eq, Structural)]
pub struct Stunned(pub bool);

#[derive(Copy, Clone, Debug, PartialEq, Eq, Structural)]
pub struct Attacking(pub bool);

/// An entity's level; 1 to begin with.
#[derive(Copy, Clone, Debug, PartialEq, Eq, Structural)]
pub struct Level(pub i32);

impl Default for Level {
    fn default() -> (r: Level)
        ensures
            r.0 == 1,
    {
        Level(1)
    }
}

#[derive(Copy, Clone, Debug, PartialEq, Eq, Structural)]
pub struct InCombat(pub bool);

} // verus!
