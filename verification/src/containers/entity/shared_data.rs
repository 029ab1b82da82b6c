use vstd::prelude::*;

use crate::gametypes::map_position::MapPosition;
use crate::gametypes::position::Position;
use crate::identity::GlobalKey;
use crate::time_ext::MyInstant;

verus! {

/// Where an entity spawned and when.
#[derive(Copy, Clone, Debug, PartialEq, Eq, Structural)]
pub struct Spawn {
    pub pos: Position,
    pub just_spawned: MyInstant,
}

impl Spawn {
    /// The default spawn: tile (10, 10) of map (0, 0, 0), spawned at `now`.
    pub fn new(now: MyInstant) -> (r: Spawn)
        ensures
            r == (Spawn { pos: Position { x: 10, y: 10, map: MapPosition { x: 0, y: 0, group: 0 } }, just_spawned: now }),
    {
        Spawn { pos: Position::new(10, 10, MapPosition::new(0, 0, 0)), just_spawned: now }
    }
}

#[derive(Copy, Clone, Debug, PartialEq, Eq, Structural)]
pub struct MoveTimer(pub MyInstant);

#[derive(Copy, Clone, Debug, PartialEq, Eq, Structural)]
pub struct AttackTimer(pub MyInstant);

#[derive(Copy, Clone, Debug, PartialEq, Eq, Structural)]
pub struct DeathTimer(pub MyInstant);

#[derive(Copy, Clone, Debug, PartialEq, Eq, Structural)]
pub struct CombatTimer(pub MyInstant);

/// Where an entity is and faces.
#[derive(Copy, Clone, Debug, PartialEq, Eq, Structural)]
pub struct MovementData {
    pub spawn: Spawn,
    pub pos: Position,
    pub dir: u8,
    pub move_timer: MoveTimer,
}

/// Current, maximum and buffed vitals (hp, mp, sp) and their regeneration.
#[derive(Copy, Clone, Debug, PartialEq, Eq)]
pub struct Vitals {
    pub vital: [i32; 3],
    pub vitalmax: [i32; 3],
    pub vitalbuffs: [i32; 3],
    pub regens: [u32; 3],
}

impl Vitals {
    /// Starting vitals: 25 hp, 2 mp, 100 sp, all full, no buffs or regeneration.
    pub fn new() -> (r: Vitals)
        ensures
            r.vital@ == seq![25i32, 2i32, 100i32],
            r.vitalmax@ == seq![25i32, 2i32, 100i32],
            r.vitalbuffs@ == seq![0i32, 0i32, 0i32],
            r.regens@ == seq![0u32, 0u32, 0u32],
    {
        Vitals { vital: [25, 2, 100], vitalmax: [25, 2, 100], vitalbuffs: [0, 0, 0], regens: [0, 0, 0] }
    }
}

/// What an entity is targeting.
#[derive(Copy, Clone, Debug, PartialEq, Eq, Structural)]
pub struct Target {
    pub target_entity: Option<GlobalKey>,
    pub target_pos: Position,
    pub target_timer: MyInstant,
}

#[derive(Copy, Clone, Debug, PartialEq, Eq, Structural)]
pub struct Physical {
    pub damage: u32,
    pub defense: u32,
}

/// Life state of an entity.
#[derive(Copy, Clone, Debug, PartialEq, Eq, Structural)]
pub enum DeathType {
    Alive,
    Spirit,
    Dead,
    Spawning,
}

impl DeathType {
    /// Anything but alive counts as dead.
    pub fn is_dead(self) -> (r: bool)
        ensures
            r == !(self is Alive),
    {
        !matches!(self, DeathType::Alive)
    }

    pub fn is_spirit(self) -> (r: bool)
        ensures
            r == (self is Spirit),
    {
        matches!(self, DeathType::Spirit)
    }

    pub fn is_alive(self) -> (r: bool)
        ensures
            r == (self is Alive),
    {
        matches!(self, DeathType::Alive)
    }

    pub fn is_spawning(self) -> (r: bool)
        ensures
            r == (self is Spawning),
    {
        matches!(self, DeathType::Spawning)
    }
}

/// Combat state of an entity.
#[derive(Copy, Clone, Debug, PartialEq, Eq)]
pub struct CombatData {
    pub vitals: Vitals,
    pub level: i32,
    pub in_combat: bool,
    pub stunned: bool,
    pub attacking: bool,
    pub death_type: DeathType,
    pub target: Target,
    pub attack_timer: AttackTimer,
    pub death_timer: DeathTimer,
    pub combat_timer: CombatTimer,
    pub physical: Physical,
}

} // verus!
