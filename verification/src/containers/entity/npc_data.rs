use vstd::prelude::*;

use crate::gametypes::position::Position;

verus! {

/// Who hit an NPC: (attacker kind, attacker id, damage).
#[derive(Clone, Debug, PartialEq, Eq)]
pub struct NpcHitBy(pub Vec<(u32, u64, u64)>);

/// The steps an NPC still has to walk: position and direction.
#[derive(Clone, Debug, PartialEq, Eq)]
pub struct NpcMoves(pub Vec<(Position, u8)>);

/// The spawn zone an NPC came from.
#[derive(Copy, Clone, Debug, PartialEq, Eq, Structural)]
pub struct NpcSpawnedZone(pub Option<usize>);

/// Where an NPC is walking to.
#[derive(Copy, Clone, Debug, PartialEq, Eq, Structural)]
pub struct NpcMovePos(pub Option<Position>);

#[derive(Copy, Clone, Debug, PartialEq, Eq, Structural)]
pub enum NpcMode {
    Nothing,
    Normal,
    Pet,
    Summon,
    Boss,
}

} // verus!
