use vstd::prelude::*;

use crate::containers::entity::player_data::IsUsingType;
use crate::containers::entity::shared_data::DeathType;
use crate::gametypes::error::AscendingError;
use crate::gametypes::map_position::MapPosition;
use crate::gametypes::position::{on_map, Position};
use crate::identity::GlobalKey;
use crate::maps::map::MapAttribute;
use crate::time_ext::MyInstant;

verus! {

/// What a move request does.
#[derive(Copy, Clone, Debug, PartialEq, Eq, Structural)]
pub enum MoveDecision {
    /// The player cannot move now.
    Ignore,
    /// The client is out of step: put the player back where the server has it.
    Resync(Position),
    /// Move one step in this direction.
    Step(u8),
}

/// A move request from a player alive, idle and not stunned: the target map
/// must exist and the direction be one of the four, else the packet is
/// invalid; a client that reports another position than the server's is
/// warped back to the server's.
pub fn decide_move(
    death: DeathType,
    using: IsUsingType,
    stunned: bool,
    map_known: bool,
    dir: u8,
    data_pos: Position,
    pos: Position,
) -> (r: Result<MoveDecision, AscendingError>)
    ensures
        !(death is Alive) || !(using is Idle) || stunned ==> r matches Ok(MoveDecision::Ignore),
        death is Alive && using is Idle && !stunned ==> {
            if !map_known || dir > 3 {
                r matches Err(AscendingError::InvalidPacket)
            } else if data_pos != pos {
                (r matches Ok(d) && d == MoveDecision::Resync(pos))
            } else {
                (r matches Ok(d) && d == MoveDecision::Step(dir))
            }
        },
{
    if !death.is_alive() || using.inuse() || stunned {
        return Ok(MoveDecision::Ignore);
    }
    if !map_known || dir > 3 {
        return Err(AscendingError::InvalidPacket);
    }
    if data_pos != pos {
        return Ok(MoveDecision::Resync(pos));
    }
    Ok(MoveDecision::Step(dir))
}

/// A turn request: ignored (`None`) unless the player is alive and idle; a
/// direction past 3 is an invalid packet; else the new direction.
pub fn decide_dir(death: DeathType, using: IsUsingType, dir: u8) -> (r: Result<Option<u8>, AscendingError>)
    ensures
        !(death is Alive && using is Idle) ==> r matches Ok(None),
        death is Alive && using is Idle && dir > 3 ==> r matches Err(AscendingError::InvalidPacket),
        death is Alive && using is Idle && dir <= 3 ==> (r matches Ok(Some(d)) && d == dir),
{
    if !death.is_alive() || using.inuse() {
        return Ok(None);
    }
    if dir > 3 {
        return Err(AscendingError::InvalidPacket);
    }
    Ok(Some(dir))
}

/// An accepted attack: whether the player turns (and must be shown
/// turning), and when it may attack again.
#[derive(Copy, Clone, Debug, PartialEq, Eq, Structural)]
pub struct AttackStart {
    pub turn: bool,
    pub next_attack: MyInstant,
}

/// An attack request: ignored unless the player is alive, idle, not already
/// attacking and its attack timer has run out; a direction past 3 is an
/// invalid packet; else the player faces `dir` and may attack again in
/// 250 ms.
pub fn decide_attack(
    death: DeathType,
    using: IsUsingType,
    attacking: bool,
    attack_timer: MyInstant,
    tick: MyInstant,
    cur_dir: u8,
    dir: u8,
) -> (r: Result<Option<AttackStart>, AscendingError>)
    requires
        tick.0 + 250 <= u64::MAX,
    ensures
        !(death is Alive && using is Idle && !attacking && attack_timer.0 <= tick.0) ==> r matches Ok(None),
        death is Alive && using is Idle && !attacking && attack_timer.0 <= tick.0 ==> {
            if dir > 3 {
                r matches Err(AscendingError::InvalidPacket)
            } else {
                (r matches Ok(Some(a)) && a == (AttackStart {
                    turn: cur_dir != dir,
                    next_attack: MyInstant((tick.0 + 250) as u64),
                }))
            }
        },
{
    if !death.is_alive() || using.inuse() || attacking || attack_timer.0 > tick.0 {
        return Ok(None);
    }
    if dir > 3 {
        return Err(AscendingError::InvalidPacket);
    }
    Ok(Some(AttackStart { turn: cur_dir != dir, next_attack: tick.add_millis(250) }))
}

/// What an accepted attack aims at.
#[derive(Copy, Clone, Debug, PartialEq, Eq, Structural)]
pub enum AttackAim {
    /// Fight this entity; when that is no fight, use what lies ahead instead.
    Fight(GlobalKey),
    /// Use whatever lies in front of the player.
    Interact,
    /// The target is gone: nothing more.
    Nothing,
}

pub fn attack_aim(target: Option<GlobalKey>, target_exists: bool) -> (r: AttackAim)
    ensures
        r == (match target {
            Some(t) => if target_exists { AttackAim::Fight(t) } else { AttackAim::Nothing },
            None => AttackAim::Interact,
        }),
{
    match target {
        Some(t) => if target_exists { AttackAim::Fight(t) } else { AttackAim::Nothing },
        None => AttackAim::Interact,
    }
}

/// A new target for a player: a target that no longer exists leaves the
/// old one (`None`); else the player now aims at `target`.
pub fn decide_settarget(target: Option<GlobalKey>, target_exists: bool) -> (r: Option<Option<GlobalKey>>)
    ensures
        r == (if target is Some && !target_exists { None } else { Some(target) }),
{
    if target.is_some() && !target_exists {
        return None;
    }
    Some(target)
}

/// The tile in front of a player at `pos` facing `dir` (1 right, 2 down,
/// 3 left, anything else up), crossing to the neighbouring map at an edge.
pub open spec fn spec_tile_ahead(pos: Position, dir: u8) -> Position {
    if dir == 1 {
        if pos.x + 1 >= 32 {
            Position { x: 0, map: MapPosition { x: (pos.map.x + 1) as i32, ..pos.map }, ..pos }
        } else {
            Position { x: (pos.x + 1) as i32, ..pos }
        }
    } else if dir == 2 {
        if pos.y + 1 >= 32 {
            Position { y: 0, map: MapPosition { y: (pos.map.y + 1) as i32, ..pos.map }, ..pos }
        } else {
            Position { y: (pos.y + 1) as i32, ..pos }
        }
    } else if dir == 3 {
        if pos.x - 1 < 0 {
            Position { x: 31, map: MapPosition { x: (pos.map.x - 1) as i32, ..pos.map }, ..pos }
        } else {
            Position { x: (pos.x - 1) as i32, ..pos }
        }
    } else {
        if pos.y - 1 < 0 {
            Position { y: 31, map: MapPosition { y: (pos.map.y - 1) as i32, ..pos.map }, ..pos }
        } else {
            Position { y: (pos.y - 1) as i32, ..pos }
        }
    }
}

/// The column of a tile on the whole world grid of its map group: 32 per
/// map to the right.
pub open spec fn world_x(p: Position) -> int {
    p.map.x * 32 + p.x
}

/// The row of a tile on the whole world grid of its map group.
pub open spec fn world_y(p: Position) -> int {
    p.map.y * 32 + p.y
}

/// The column step of a facing byte: 1 right, 3 left, else none.
pub open spec fn facing_step_x(dir: u8) -> int {
    if dir == 1 { 1 } else if dir == 3 { -1 } else { 0 }
}

/// The row step of a facing byte: 2 one row on, 1 and 3 none, else one row
/// back.
pub open spec fn facing_step_y(dir: u8) -> int {
    if dir == 2 { 1 } else if dir == 1 || dir == 3 { 0 } else { -1 }
}

/// The tile ahead is the neighbouring tile in the faced direction: one step
/// on the world grid, in the same map group, on its map's grid; so never
/// the player's own tile.
pub proof fn lemma_tile_ahead_is_neighbour(pos: Position, dir: u8)
    requires
        on_map(pos),
        i32::MIN < pos.map.x < i32::MAX,
        i32::MIN < pos.map.y < i32::MAX,
    ensures
        world_x(spec_tile_ahead(pos, dir)) == world_x(pos) + facing_step_x(dir),
        world_y(spec_tile_ahead(pos, dir)) == world_y(pos) + facing_step_y(dir),
        spec_tile_ahead(pos, dir).map.group == pos.map.group,
        on_map(spec_tile_ahead(pos, dir)),
        spec_tile_ahead(pos, dir) != pos,
{
}

pub fn tile_ahead(pos: Position, dir: u8) -> (r: Position)
    requires
        on_map(pos),
        i32::MIN < pos.map.x < i32::MAX,
        i32::MIN < pos.map.y < i32::MAX,
    ensures
        r == spec_tile_ahead(pos, dir),
        on_map(r),
        world_x(r) == world_x(pos) + facing_step_x(dir),
        world_y(r) == world_y(pos) + facing_step_y(dir),
        r.map.group == pos.map.group,
        r != pos,
{
    proof {
        lemma_tile_ahead_is_neighbour(pos, dir);
    }
    let mut next = pos;
    if dir == 1 {
        next.x = next.x + 1;
        if next.x >= 32 {
            next.x = 0;
            next.map.x = next.map.x + 1;
        }
    } else if dir == 2 {
        next.y = next.y + 1;
        if next.y >= 32 {
            next.y = 0;
            next.map.y = next.map.y + 1;
        }
    } else if dir == 3 {
        next.x = next.x - 1;
        if next.x < 0 {
            next.x = 31;
            next.map.x = next.map.x - 1;
        }
    } else {
        next.y = next.y - 1;
        if next.y < 0 {
            next.y = 31;
            next.map.y = next.map.y - 1;
        }
    }
    next
}

/// Using a tile: a storage tile opens the bank, a shop tile that shop;
/// anything else does nothing.
pub fn interact_with(attr: &MapAttribute) -> (r: Option<IsUsingType>)
    ensures
        r == (match *attr {
            MapAttribute::Storage => Some(IsUsingType::Bank),
            MapAttribute::Shop(i) => Some(IsUsingType::Store(i as i64)),
            _ => None,
        }),
{
    match attr {
        MapAttribute::Storage => Some(IsUsingType::Bank),
        MapAttribute::Shop(i) => Some(IsUsingType::Store(*i as i64)),
        _ => None,
    }
}

} // verus!
