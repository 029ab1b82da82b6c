use vstd::prelude::*;

use crate::containers::entity::npc_data::NpcSpawnedZone;
use crate::containers::entity::shared_data::{DeathType, Spawn};
use crate::gametypes::enums::{map_pos_dir, Dir, WorldEntityType};
use crate::gametypes::game_time::{spec_time_of_day, GameTime};
use crate::gametypes::map_position::{direction_fits, distance_fits, map_offsets_fit, MapPosition};
use crate::gametypes::position::{
    on_map, position_step_fits, spec_direction, spec_distance, spec_position_offset, Position,
};
use crate::gametypes::{MAX_WORLD_NPCS, NPCS_SPAWNCAP};
use crate::items::item::{empty_item, Item};
use crate::maps::actor::{spec_blocked_tile, spec_dir_blocked, MapActor};
use crate::maps::grid::{grids_well_formed, spec_tile};
use crate::maps::map::{check_surrounding, spec_check_surrounding, WorldMap};
use crate::maps::mapitem::{MapItem, SpawnItemData};
use crate::identity::GlobalKey;

verus! {

/// `target` in the tile coordinates of `caster`'s map, when it lies on that
/// map or one around it; otherwise unchanged.
pub open spec fn spec_seen_from(caster: Position, target: Position) -> Position {
    spec_position_offset(target, map_pos_dir(spec_check_surrounding(caster.map, target.map, true)))
}

/// The map arithmetic of looking at `target` from `caster` stays within
/// `i32`: the maps around the caster's map can be named, the target's
/// coordinates shifted onto the caster's map, and their differences taken.
pub open spec fn target_offset_fits(caster: Position, target: Position) -> bool {
    &&& map_offsets_fit(caster.map)
    &&& position_step_fits(target, map_pos_dir(spec_check_surrounding(caster.map, target.map, true)))
    &&& direction_fits(caster.x - spec_seen_from(caster, target).x, caster.y - spec_seen_from(caster, target).y)
}

/// Besides, the distance between caster and target can be computed in `i32`.
pub open spec fn target_fits(caster: Position, target: Position) -> bool {
    &&& target_offset_fits(caster, target)
    &&& distance_fits(caster.x - spec_seen_from(caster, target).x, caster.y - spec_seen_from(caster, target).y)
}

/// The byte a direction is stored under in a tile's blocked directions.
pub open spec fn dir_code(d: Dir) -> u8 {
    match d { Dir::Up => 0u8, Dir::Right => 1u8, Dir::Down => 2u8, Dir::Left => 3u8 }
}

/// An alive target within `range` tiles of the caster, counted across map edges.
pub open spec fn spec_can_target(caster: Position, target: Position, death: DeathType, range: i32) -> bool {
    range >= spec_distance(caster, spec_seen_from(caster, target)) && death is Alive
}

/// Only a living target can be targeted; one on the caster's own map is
/// targeted exactly when it is alive and within range, by plain tile
/// coordinates; so is one in another map group, whose coordinates are not
/// shifted.
pub proof fn lemma_target_on_same_map(caster: Position, target: Position, death: DeathType, range: i32)
    requires
        map_offsets_fit(caster.map),
    ensures
        spec_can_target(caster, target, death, range) ==> death is Alive,
        caster.map == target.map ==> (spec_can_target(caster, target, death, range)
            <==> death is Alive && spec_distance(caster, target) <= range),
        caster.map.group != target.map.group ==> (spec_can_target(caster, target, death, range)
            <==> death is Alive && spec_distance(caster, target) <= range),
{
}

/// Whether a caster at `caster_pos` can reach an entity at `target_pos`.
pub fn can_target(caster_pos: Position, target_pos: Position, target_death: DeathType, range: i32) -> (r: bool)
    requires
        target_fits(caster_pos, target_pos),
    ensures
        r == spec_can_target(caster_pos, target_pos, target_death, range),
        r ==> target_death is Alive,
        caster_pos.map == target_pos.map ==> (r <==> target_death is Alive && spec_distance(caster_pos, target_pos) <= range),
        caster_pos.map.group != target_pos.map.group ==> (r <==> target_death is Alive && spec_distance(caster_pos, target_pos) <= range),
{
    proof {
        lemma_target_on_same_map(caster_pos, target_pos, target_death, range);
    }
    let check = check_surrounding(caster_pos.map, target_pos.map, true);
    let pos = target_pos.map_offset(check.dir());
    range >= caster_pos.checkdistance(pos) && target_death.is_alive()
}

/// Whether the target lies in a straight direction from the caster, within
/// `range`, with that direction not blocked on the caster's tile.
pub fn in_dir_attack_zone(map: &MapActor, caster_pos: Position, target_pos: Position, range: i32) -> (r: bool)
    requires
        target_offset_fits(caster_pos, target_pos),
        on_map(caster_pos),
        grids_well_formed(map.move_grids.view()),
        spec_direction(caster_pos, spec_seen_from(caster_pos, target_pos)) matches Some(d)
            && !spec_dir_blocked(map.move_grids.view(), caster_pos, dir_code(d))
            ==> target_fits(caster_pos, target_pos),
    ensures
        r == (match spec_direction(caster_pos, spec_seen_from(caster_pos, target_pos)) {
            Some(d) => !spec_dir_blocked(map.move_grids.view(), caster_pos, dir_code(d))
                && range >= spec_distance(caster_pos, spec_seen_from(caster_pos, target_pos)),
            None => false,
        }),
{
    let check = check_surrounding(caster_pos.map, target_pos.map, true);
    let pos = target_pos.map_offset(check.dir());
    match caster_pos.checkdirection(pos) {
        Some(dir) => !map.is_dir_blocked(caster_pos, dir.as_u8()) && range >= caster_pos.checkdistance(pos),
        None => false,
    }
}

/// A lying item of `value` of item `index` at `pos`, without timers or owner.
pub fn create_mapitem(index: u32, value: u16, pos: Position) -> (r: MapItem)
    ensures
        r.item == (Item { num: index, val: value, ..empty_item() }),
        r.pos == pos,
        r.despawn is None,
        r.ownertimer is None,
        r.ownerid is None,
        r.key.0 == crate::identity::null_key_value(),
{
    MapItem {
        key: GlobalKey::null(),
        item: Item { num: index, val: value, level: 1, data: [0, 0, 0, 0, 0] },
        despawn: None,
        ownertimer: None,
        ownerid: None,
        pos,
    }
}

/// `rand::Rng::random_range(0..n)` on the thread-local generator: some
/// number below `n`, by chance.
#[verifier::external_body]
fn random_below(n: usize) -> (r: usize)
    requires
        n > 0,
    ensures
        r < n,
{
    rand::Rng::random_range(&mut rand::rng(), 0..n)
}

/// An NPC that a spawn pass chose to place.
#[derive(Copy, Clone, Debug, PartialEq, Eq, Structural)]
pub struct PlannedSpawn {
    pub pos: Position,
    pub zone: usize,
    pub npc_id: u64,
}

/// Why a spawn pass stopped.
#[derive(Copy, Clone, Debug, PartialEq, Eq, Structural)]
pub enum SpawnError {
    NpcNotFound(u64),
}

/// The spawn tiles of a map all lie on the map.
pub open spec fn zone_spawns_on_map(map: WorldMap) -> bool {
    forall|z: int, i: int| 0 <= z < 5 && 0 <= i < map.zonespawns[z]@.len() ==>
        (#[trigger] map.zonespawns[z]@[i]).0 < 32 && map.zonespawns[z]@[i].1 < 32
}

/// A planned spawn stands where the map allows NPCs of its zone: on one of
/// the zone's spawn tiles of this map, free for NPCs, and it is one of the
/// zone's NPCs, whose spawn window holds the current game time.
pub open spec fn spawn_fits(
    actor: MapActor,
    map: WorldMap,
    spawn_times: Seq<(GameTime, GameTime)>,
    time: GameTime,
    s: PlannedSpawn,
) -> bool {
    &&& s.zone < 5
    &&& s.pos.map == map.position
    &&& exists|i: int| 0 <= i < map.zonespawns[s.zone as int]@.len()
        && #[trigger] map.zonespawns[s.zone as int]@[i].0 == s.pos.x
        && map.zonespawns[s.zone as int]@[i].1 == s.pos.y
    &&& !spec_blocked_tile(actor.move_grids.view(), s.pos, WorldEntityType::Npc)
    &&& exists|j: int| 0 <= j < 5 && #[trigger] map.zones[s.zone as int].1[j] == Some(s.npc_id)
    &&& (s.npc_id as int) < spawn_times.len()
    &&& spec_time_of_day(spawn_times[s.npc_id as int].0) <= spec_time_of_day(time)
        <= spec_time_of_day(spawn_times[s.npc_id as int].1)
}

/// The chance a spawn pass leaves to luck for one NPC slot of a zone:
/// whether the NPC tries to spawn at all, and the ten spawn tiles it tries,
/// in order (each taken modulo the number of the zone's spawn tiles).
#[derive(Copy, Clone, Debug, PartialEq, Eq)]
pub struct SpawnDice {
    pub proceed: bool,
    pub tiles: [usize; 10],
}

/// How many NPCs a zone may still gain in one pass: its room, at most ten.
pub open spec fn spec_max_spawnable(map: WorldMap, zone_counts: Seq<u64>, zone: int) -> int {
    let room = map.zones[zone].0 - zone_counts[zone];
    if room < NPCS_SPAWNCAP { room } else { NPCS_SPAWNCAP as int }
}

/// The first of the tries from `k` on whose spawn tile is free for NPCs.
pub open spec fn first_free_draw(actor: MapActor, map: WorldMap, spawns: Seq<(u16, u16)>, tiles: Seq<usize>, k: int) -> Option<Position>
    decreases 10 - k,
{
    if k < 0 || k >= 10 || spawns.len() == 0 {
        None
    } else {
        let (x, y) = spawns[(tiles[k] as int) % (spawns.len() as int)];
        let pos = Position { x: x as i32, y: y as i32, map: map.position };
        if !spec_blocked_tile(actor.move_grids.view(), pos, WorldEntityType::Npc) {
            Some(pos)
        } else {
            first_free_draw(actor, map, spawns, tiles, k + 1)
        }
    }
}

/// The rest of a spawn pass from NPC slot `j` of `zone` (`j == -1`: about to
/// enter the zone), with `count` spawned so far this pass and `len` NPCs in
/// the world. A pass stops when ten NPCs spawned; a zone is visited when it
/// has spawn tiles and room; an NPC id without data ends the pass with that
/// id; an NPC whose dice say no, or whose spawn window misses the game time,
/// is passed over; a zone is left once it gained what it may or the world is
/// full; otherwise the NPC spawns on the first free tile it tries, if any.
pub open spec fn spawn_pass(
    actor: MapActor,
    map: WorldMap,
    zone_counts: Seq<u64>,
    spawn_times: Seq<(GameTime, GameTime)>,
    time: GameTime,
    dice: Seq<SpawnDice>,
    zone: int,
    j: int,
    count: int,
    len: int,
) -> Result<Seq<PlannedSpawn>, u64>
    decreases 5 - zone, 6 - j,
{
    if zone < 0 || zone >= 5 || j < -1 {
        Ok(seq![])
    } else if j == -1 {
        if count >= NPCS_SPAWNCAP {
            Ok(seq![])
        } else if map.zonespawns[zone]@.len() > 0 && zone_counts[zone] < map.zones[zone].0 {
            spawn_pass(actor, map, zone_counts, spawn_times, time, dice, zone, 0, count, len)
        } else {
            spawn_pass(actor, map, zone_counts, spawn_times, time, dice, zone + 1, -1, count, len)
        }
    } else if j >= 5 {
        spawn_pass(actor, map, zone_counts, spawn_times, time, dice, zone + 1, -1, count, len)
    } else {
        match map.zones[zone].1[j] {
            None => spawn_pass(actor, map, zone_counts, spawn_times, time, dice, zone, j + 1, count, len),
            Some(id) => if id >= spawn_times.len() || id > usize::MAX {
                Err(id)
            } else if !dice[zone * 5 + j].proceed || !(spec_time_of_day(spawn_times[id as int].0) <= spec_time_of_day(time)
                <= spec_time_of_day(spawn_times[id as int].1)) {
                spawn_pass(actor, map, zone_counts, spawn_times, time, dice, zone, j + 1, count, len)
            } else if count >= spec_max_spawnable(map, zone_counts, zone) || len >= MAX_WORLD_NPCS {
                spawn_pass(actor, map, zone_counts, spawn_times, time, dice, zone + 1, -1, count, len)
            } else {
                match first_free_draw(actor, map, map.zonespawns[zone]@, dice[zone * 5 + j].tiles@, 0) {
                    Some(pos) => match spawn_pass(actor, map, zone_counts, spawn_times, time, dice, zone, j + 1, count + 1, len + 1) {
                        Ok(rest) => Ok(seq![PlannedSpawn { pos, zone: zone as usize, npc_id: id }] + rest),
                        Err(e) => Err(e),
                    },
                    None => spawn_pass(actor, map, zone_counts, spawn_times, time, dice, zone, j + 1, count, len),
                }
            },
        }
    }
}

/// NPC `id` sits in a slot of one of `map`'s zones that has spawn tiles.
pub open spec fn listed_in_spawning_zone(map: WorldMap, id: u64) -> bool {
    exists|z: int, j: int| 0 <= z < 5 && 0 <= j < 5 && map.zonespawns[z]@.len() > 0
        && #[trigger] map.zones[z].1[j] == Some(id)
}

/// Every NPC id in a slot of a zone of `map` with spawn tiles is below `n`,
/// so has spawn data.
pub open spec fn spawn_ids_known(map: WorldMap, n: int) -> bool {
    forall|z: int, j: int| 0 <= z < 5 && 0 <= j < 5 && map.zonespawns[z]@.len() > 0
        && (#[trigger] map.zones[z].1[j]) is Some ==> map.zones[z].1[j]->0 < n
}

/// A spawn pass fails only on an NPC id of a zone with spawn tiles that has
/// no spawn data, so it succeeds whenever all those ids have data.
proof fn lemma_spawn_pass_outcome(
    actor: MapActor,
    map: WorldMap,
    zone_counts: Seq<u64>,
    spawn_times: Seq<(GameTime, GameTime)>,
    time: GameTime,
    dice: Seq<SpawnDice>,
    zone: int,
    j: int,
    count: int,
    len: int,
)
    requires
        spawn_times.len() <= usize::MAX,
        0 <= zone < 5 && j >= 0 ==> map.zonespawns[zone]@.len() > 0,
    ensures
        spawn_ids_known(map, spawn_times.len() as int)
            ==> spawn_pass(actor, map, zone_counts, spawn_times, time, dice, zone, j, count, len) is Ok,
        spawn_pass(actor, map, zone_counts, spawn_times, time, dice, zone, j, count, len) matches Err(id)
            ==> listed_in_spawning_zone(map, id) && id >= spawn_times.len(),
    decreases 5 - zone, 6 - j,
{
    if zone < 0 || zone >= 5 || j < -1 {
    } else if j == -1 {
        if count >= NPCS_SPAWNCAP {
        } else if map.zonespawns[zone]@.len() > 0 && zone_counts[zone] < map.zones[zone].0 {
            lemma_spawn_pass_outcome(actor, map, zone_counts, spawn_times, time, dice, zone, 0, count, len);
        } else {
            lemma_spawn_pass_outcome(actor, map, zone_counts, spawn_times, time, dice, zone + 1, -1, count, len);
        }
    } else if j >= 5 {
        lemma_spawn_pass_outcome(actor, map, zone_counts, spawn_times, time, dice, zone + 1, -1, count, len);
    } else {
        match map.zones[zone].1[j] {
            None => {
                lemma_spawn_pass_outcome(actor, map, zone_counts, spawn_times, time, dice, zone, j + 1, count, len);
            },
            Some(id) => {
                if id >= spawn_times.len() || id > usize::MAX {
                    assert(map.zones[zone].1[j] == Some(id));
                    assert(listed_in_spawning_zone(map, id));
                } else {
                    lemma_spawn_pass_outcome(actor, map, zone_counts, spawn_times, time, dice, zone, j + 1, count, len);
                    lemma_spawn_pass_outcome(actor, map, zone_counts, spawn_times, time, dice, zone, j + 1, count + 1, len + 1);
                    lemma_spawn_pass_outcome(actor, map, zone_counts, spawn_times, time, dice, zone + 1, -1, count, len);
                }
            },
        }
    }
}

/// How many of the planned spawns are for zone `z`.
pub open spec fn count_in_zone(plan: Seq<PlannedSpawn>, z: int) -> nat
    decreases plan.len(),
{
    if plan.len() == 0 {
        0
    } else {
        (if plan[0].zone == z { 1nat } else { 0nat }) + count_in_zone(plan.subrange(1, plan.len() as int), z)
    }
}

/// A zone gains nothing in a pass, or it had room, and gains no more than
/// it may: its room, at most ten.
pub open spec fn zone_gain_ok(map: WorldMap, zone_counts: Seq<u64>, z: int, gained: nat) -> bool {
    gained == 0 || (zone_counts[z] < map.zones[z].0 && gained <= spec_max_spawnable(map, zone_counts, z))
}

proof fn lemma_count_prepend(s: PlannedSpawn, rest: Seq<PlannedSpawn>, z: int)
    ensures
        count_in_zone(seq![s] + rest, z) == (if s.zone == z { 1nat } else { 0nat }) + count_in_zone(rest, z),
{
    let whole = seq![s] + rest;
    assert(whole.subrange(1, whole.len() as int) =~= rest);
}

/// What a spawn pass from slot `j` of `zone` on adds to each zone: nothing
/// to the zones already left; to the zone it is in, with `count` spawned so
/// far, no more than takes the count to the zone's limit; to the zones still
/// ahead, no more than they may gain.
proof fn lemma_spawn_pass_zones(
    actor: MapActor,
    map: WorldMap,
    zone_counts: Seq<u64>,
    spawn_times: Seq<(GameTime, GameTime)>,
    time: GameTime,
    dice: Seq<SpawnDice>,
    zone: int,
    j: int,
    count: int,
    len: int,
)
    requires
        count >= 0,
        0 <= zone < 5 && j >= 0 ==> zone_counts[zone] < map.zones[zone].0,
    ensures
        spawn_pass(actor, map, zone_counts, spawn_times, time, dice, zone, j, count, len) matches Ok(rest) ==> {
            forall|z: int| 0 <= z < 5 ==> {
                &&& z < zone ==> #[trigger] count_in_zone(rest, z) == 0
                &&& z == zone && j >= 0 ==> count_in_zone(rest, z) == 0
                    || count + count_in_zone(rest, z) <= spec_max_spawnable(map, zone_counts, z)
                &&& (z > zone || (z == zone && j < 0)) ==> zone_gain_ok(map, zone_counts, z, count_in_zone(rest, z))
            }
        },
    decreases 5 - zone, 6 - j,
{
    let here = spawn_pass(actor, map, zone_counts, spawn_times, time, dice, zone, j, count, len);
    if zone < 0 || zone >= 5 || j < -1 {
        assert forall|z: int| 0 <= z < 5 implies #[trigger] count_in_zone(seq![], z) == 0 by {}
    } else if j == -1 {
        if count >= NPCS_SPAWNCAP {
            assert forall|z: int| 0 <= z < 5 implies #[trigger] count_in_zone(seq![], z) == 0 by {}
        } else if map.zonespawns[zone]@.len() > 0 && zone_counts[zone] < map.zones[zone].0 {
            lemma_spawn_pass_zones(actor, map, zone_counts, spawn_times, time, dice, zone, 0, count, len);
        } else {
            lemma_spawn_pass_zones(actor, map, zone_counts, spawn_times, time, dice, zone + 1, -1, count, len);
        }
    } else if j >= 5 {
        lemma_spawn_pass_zones(actor, map, zone_counts, spawn_times, time, dice, zone + 1, -1, count, len);
    } else {
        match map.zones[zone].1[j] {
            None => {
                lemma_spawn_pass_zones(actor, map, zone_counts, spawn_times, time, dice, zone, j + 1, count, len);
            },
            Some(id) => {
                if id >= spawn_times.len() || id > usize::MAX {
                } else if !dice[zone * 5 + j].proceed || !(spec_time_of_day(spawn_times[id as int].0) <= spec_time_of_day(time)
                    <= spec_time_of_day(spawn_times[id as int].1)) {
                    lemma_spawn_pass_zones(actor, map, zone_counts, spawn_times, time, dice, zone, j + 1, count, len);
                } else if count >= spec_max_spawnable(map, zone_counts, zone) || len >= MAX_WORLD_NPCS {
                    lemma_spawn_pass_zones(actor, map, zone_counts, spawn_times, time, dice, zone + 1, -1, count, len);
                } else {
                    match first_free_draw(actor, map, map.zonespawns[zone]@, dice[zone * 5 + j].tiles@, 0) {
                        Some(pos) => {
                            lemma_spawn_pass_zones(actor, map, zone_counts, spawn_times, time, dice, zone, j + 1, count + 1, len + 1);
                            let s = PlannedSpawn { pos, zone: zone as usize, npc_id: id };
                            let tail = spawn_pass(actor, map, zone_counts, spawn_times, time, dice, zone, j + 1, count + 1, len + 1);
                            if let Ok(rest) = tail {
                                assert forall|z: int| 0 <= z < 5 implies {
                                    &&& z < zone ==> #[trigger] count_in_zone(seq![s] + rest, z) == 0
                                    &&& z == zone && j >= 0 ==> count_in_zone(seq![s] + rest, z) == 0
                                        || count + count_in_zone(seq![s] + rest, z) <= spec_max_spawnable(map, zone_counts, z)
                                    &&& (z > zone || (z == zone && j < 0)) ==> zone_gain_ok(map, zone_counts, z, count_in_zone(seq![s] + rest, z))
                                } by {
                                    lemma_count_prepend(s, rest, z);
                                }
                            }
                        },
                        None => {
                            lemma_spawn_pass_zones(actor, map, zone_counts, spawn_times, time, dice, zone, j + 1, count, len);
                        },
                    }
                }
            },
        }
    }
}

/// `plan` followed by the outcome `rest`.
pub open spec fn then_spawns(plan: Seq<PlannedSpawn>, rest: Result<Seq<PlannedSpawn>, u64>) -> Result<Seq<PlannedSpawn>, u64> {
    match rest {
        Ok(r) => Ok(plan + r),
        Err(e) => Err(e),
    }
}

/// A whole spawn pass with the given dice (one per zone and NPC slot, zone
/// by zone): none when the world is full, else `spawn_pass` from the first
/// zone.
pub open spec fn spec_plan_npc_spawns(
    actor: MapActor,
    map: WorldMap,
    zone_counts: Seq<u64>,
    spawn_times: Seq<(GameTime, GameTime)>,
    time: GameTime,
    world_npcs: usize,
    dice: Seq<SpawnDice>,
) -> Result<Seq<PlannedSpawn>, u64> {
    if world_npcs >= MAX_WORLD_NPCS {
        Ok(seq![])
    } else {
        spawn_pass(actor, map, zone_counts, spawn_times, time, dice, 0, -1, 0, world_npcs as int)
    }
}

/// One spawn pass over a map with players near it, with its luck given:
/// see `spec_plan_npc_spawns`. Gives the spawns and the new world NPC
/// count, or the first NPC id that has no data. Every spawn stands where its
/// zone allows it, at most ten NPCs spawn and the world never passes its
/// NPC cap.
pub fn plan_npc_spawns_with(
    actor: &MapActor,
    map: &WorldMap,
    zone_counts: &[u64; 5],
    spawn_times: &Vec<(GameTime, GameTime)>,
    time: GameTime,
    world_npcs: usize,
    dice: &Vec<SpawnDice>,
) -> (r: Result<(Vec<PlannedSpawn>, usize), SpawnError>)
    requires
        grids_well_formed(actor.move_grids.view()),
        zone_spawns_on_map(*map),
        map_offsets_fit(map.position),
        dice@.len() == 25,
    ensures
        match spec_plan_npc_spawns(*actor, *map, zone_counts@, spawn_times@, time, world_npcs, dice@) {
            Ok(plan) => r matches Ok((p, n)) && p@ == plan && n == world_npcs + plan.len(),
            Err(id) => r matches Err(SpawnError::NpcNotFound(e)) && e == id,
        },
        r matches Ok((plan, n)) ==> {
            &&& forall|k: int| 0 <= k < plan@.len() ==> spawn_fits(*actor, *map, spawn_times@, time, #[trigger] plan@[k])
            &&& plan@.len() <= NPCS_SPAWNCAP
            &&& world_npcs >= MAX_WORLD_NPCS ==> plan@.len() == 0
            &&& world_npcs < MAX_WORLD_NPCS ==> n <= MAX_WORLD_NPCS
        },
        world_npcs >= MAX_WORLD_NPCS ==> (r matches Ok((p, n)) && p@.len() == 0 && n == world_npcs),
        spawn_ids_known(*map, spawn_times@.len() as int) ==> r is Ok,
        r matches Err(SpawnError::NpcNotFound(id)) ==> listed_in_spawning_zone(*map, id) && id >= spawn_times@.len(),
        r matches Ok((p, n)) ==> forall|z: int| 0 <= z < 5 ==> #[trigger] count_in_zone(p@, z) == 0
            || (zone_counts@[z] < map.zones[z].0 && zone_counts@[z] + count_in_zone(p@, z) <= map.zones[z].0
                && count_in_zone(p@, z) <= NPCS_SPAWNCAP),
{
    proof {
        assert(spawn_times.len() == spawn_times@.len());
        lemma_spawn_pass_outcome(*actor, *map, zone_counts@, spawn_times@, time, dice@, 0, -1, 0, world_npcs as int);
        lemma_spawn_pass_zones(*actor, *map, zone_counts@, spawn_times@, time, dice@, 0, -1, 0, world_npcs as int);
        assert forall|z: int| 0 <= z < 5 implies #[trigger] count_in_zone(seq![], z) == 0 by {}
    }
    let ghost whole = spec_plan_npc_spawns(*actor, *map, zone_counts@, spawn_times@, time, world_npcs, dice@);
    assert(spawn_ids_known(*map, spawn_times@.len() as int) ==> whole is Ok);
    assert(whole matches Err(id) ==> listed_in_spawning_zone(*map, id) && id >= spawn_times@.len());
    let ghost zc = zone_counts@;
    let mut plan: Vec<PlannedSpawn> = Vec::new();
    let mut len = world_npcs;
    if len >= MAX_WORLD_NPCS {
        return Ok((plan, len));
    }
    let mut count: usize = 0;
    let mut zone: usize = 0;
    while zone < 5
        invariant_except_break
            whole == then_spawns(plan@, spawn_pass(*actor, *map, zc, spawn_times@, time, dice@, zone as int, -1, count as int, len as int)),
        invariant
            zone <= 5,
            whole == spec_plan_npc_spawns(*actor, *map, zone_counts@, spawn_times@, time, world_npcs, dice@),
            spawn_ids_known(*map, spawn_times@.len() as int) ==> whole is Ok,
            whole matches Err(id) ==> listed_in_spawning_zone(*map, id) && id >= spawn_times@.len(),
            zc == zone_counts@,
            dice@.len() == 25,
            grids_well_formed(actor.move_grids.view()),
            zone_spawns_on_map(*map),
            count == plan@.len(),
            count <= NPCS_SPAWNCAP,
            len == world_npcs + plan@.len(),
            len <= MAX_WORLD_NPCS,
            world_npcs < MAX_WORLD_NPCS,
            forall|k: int| 0 <= k < plan@.len() ==> spawn_fits(*actor, *map, spawn_times@, time, #[trigger] plan@[k]),
        ensures
            whole == Ok::<Seq<PlannedSpawn>, u64>(plan@),
            count == plan@.len(),
            count <= NPCS_SPAWNCAP,
            len == world_npcs + plan@.len(),
            len <= MAX_WORLD_NPCS,
            forall|k: int| 0 <= k < plan@.len() ==> spawn_fits(*actor, *map, spawn_times@, time, #[trigger] plan@[k]),
        decreases 5 - zone,
    {
        if count >= NPCS_SPAWNCAP {
            assert(plan@ + seq![] =~= plan@);
            break;
        }
        let max_npcs = map.zones[zone].0;
        let spawns = &map.zonespawns[zone];
        if spawns.len() > 0 && zone_counts[zone] < max_npcs {
            let room = max_npcs - zone_counts[zone];
            let max_spawnable: usize = if room < NPCS_SPAWNCAP as u64 { room as usize } else { NPCS_SPAWNCAP };
            let mut j: usize = 0;
            while j < 5
                invariant_except_break
                    whole == then_spawns(plan@, spawn_pass(*actor, *map, zc, spawn_times@, time, dice@, zone as int, j as int, count as int, len as int)),
                invariant
                    j <= 5,
                    zone < 5,
                    whole == spec_plan_npc_spawns(*actor, *map, zone_counts@, spawn_times@, time, world_npcs, dice@),
            spawn_ids_known(*map, spawn_times@.len() as int) ==> whole is Ok,
            whole matches Err(id) ==> listed_in_spawning_zone(*map, id) && id >= spawn_times@.len(),
                    zc == zone_counts@,
                    dice@.len() == 25,
                    max_spawnable == spec_max_spawnable(*map, zc, zone as int),
                    spawns@ == map.zonespawns[zone as int]@,
                    spawns@.len() > 0,
                    max_spawnable <= NPCS_SPAWNCAP,
                    grids_well_formed(actor.move_grids.view()),
                    zone_spawns_on_map(*map),
                    count == plan@.len(),
                    count <= NPCS_SPAWNCAP,
                    len == world_npcs + plan@.len(),
                    len <= MAX_WORLD_NPCS,
                    world_npcs < MAX_WORLD_NPCS,
                    forall|k: int| 0 <= k < plan@.len() ==> spawn_fits(*actor, *map, spawn_times@, time, #[trigger] plan@[k]),
                ensures
                    whole == then_spawns(plan@, spawn_pass(*actor, *map, zc, spawn_times@, time, dice@, zone as int + 1, -1, count as int, len as int)),
                decreases 5 - j,
            {
                let slot = map.zones[zone].1[j];
                let npc_id = match slot {
                    Some(id) => id,
                    None => {
                        j = j + 1;
                        continue;
                    },
                };
                if npc_id > usize::MAX as u64 || npc_id as usize >= spawn_times.len() {
                    assert(npc_id >= spawn_times@.len() || npc_id > usize::MAX);
                    assert(spawn_pass(*actor, *map, zc, spawn_times@, time, dice@, zone as int, j as int, count as int, len as int)
                        == Err::<Seq<PlannedSpawn>, u64>(npc_id));
                    return Err(SpawnError::NpcNotFound(npc_id));
                }
                let (from, to) = spawn_times[npc_id as usize];
                let d = dice[zone * 5 + j];
                if !d.proceed || !time.in_range(from, to) {
                    j = j + 1;
                    continue;
                }
                if count >= max_spawnable || len >= MAX_WORLD_NPCS {
                    break;
                }
                let mut tries: usize = 0;
                let mut found: Option<(Position, usize)> = None;
                while tries < 10
                    invariant_except_break
                        found is None,
                        first_free_draw(*actor, *map, spawns@, d.tiles@, 0) == first_free_draw(*actor, *map, spawns@, d.tiles@, tries as int),
                    invariant
                        tries <= 10,
                        zone < 5,
                        spawns@ == map.zonespawns[zone as int]@,
                        spawns@.len() > 0,
                        grids_well_formed(actor.move_grids.view()),
                        zone_spawns_on_map(*map),
                    ensures
                        match found {
                            Some((p, pos_id)) => first_free_draw(*actor, *map, spawns@, d.tiles@, 0) == Some(p)
                                && !spec_blocked_tile(actor.move_grids.view(), p, WorldEntityType::Npc)
                                && pos_id < spawns@.len()
                                && spawns@[pos_id as int].0 == p.x && spawns@[pos_id as int].1 == p.y
                                && p.map == map.position,
                            None => first_free_draw(*actor, *map, spawns@, d.tiles@, 0) is None,
                        },
                    decreases 10 - tries,
                {
                    let pos_id = d.tiles[tries] % spawns.len();
                    let (x, y) = spawns[pos_id];
                    proof {
                        assert(map.zonespawns[zone as int]@[pos_id as int].0 < 32);
                    }
                    let spawn = Position::new(x as i32, y as i32, map.position);
                    if !actor.is_blocked_tile(spawn, WorldEntityType::Npc) {
                        found = Some((spawn, pos_id));
                        break;
                    }
                    tries = tries + 1;
                }
                if let Some((spawn, pos_id)) = found {
                    let s = PlannedSpawn { pos: spawn, zone, npc_id };
                    proof {
                        assert(map.zonespawns[s.zone as int]@[pos_id as int].0 == s.pos.x);
                        assert(map.zones[s.zone as int].1[j as int] == Some(s.npc_id));
                    }
                    let ghost before = plan@;
                    let ghost rest = spawn_pass(*actor, *map, zc, spawn_times@, time, dice@, zone as int, j as int + 1, count as int + 1, len as int + 1);
                    plan.push(s);
                    proof {
                        assert(then_spawns(before, then_spawns(seq![s], rest)) == then_spawns(plan@, rest)) by {
                            if let Ok(r) = rest {
                                assert(before + (seq![s] + r) =~= plan@ + r);
                            }
                        }
                    }
                    count = count + 1;
                    len = len + 1;
                }
                j = j + 1;
            }
        }
        zone = zone + 1;
    }
    proof {
        assert(plan@ + seq![] =~= plan@);
    }
    Ok((plan, len))
}

/// One spawn pass over a map with players near it, its luck drawn from the
/// thread's random generator: every NPC slot flips a coin and gets ten
/// random spawn tiles of its zone to try; see `plan_npc_spawns_with`.
pub fn plan_npc_spawns(
    actor: &MapActor,
    map: &WorldMap,
    zone_counts: &[u64; 5],
    spawn_times: &Vec<(GameTime, GameTime)>,
    time: GameTime,
    world_npcs: usize,
) -> (r: Result<(Vec<PlannedSpawn>, usize), SpawnError>)
    requires
        grids_well_formed(actor.move_grids.view()),
        zone_spawns_on_map(*map),
        map_offsets_fit(map.position),
    ensures
        r matches Ok((plan, n)) ==> {
            &&& forall|k: int| 0 <= k < plan@.len() ==> spawn_fits(*actor, *map, spawn_times@, time, #[trigger] plan@[k])
            &&& plan@.len() <= NPCS_SPAWNCAP
            &&& n == world_npcs + plan@.len()
            &&& world_npcs >= MAX_WORLD_NPCS ==> plan@.len() == 0
            &&& world_npcs < MAX_WORLD_NPCS ==> n <= MAX_WORLD_NPCS
        },
        world_npcs >= MAX_WORLD_NPCS ==> (r matches Ok((p, n)) && p@.len() == 0 && n == world_npcs),
        spawn_ids_known(*map, spawn_times@.len() as int) ==> r is Ok,
        r matches Err(SpawnError::NpcNotFound(id)) ==> listed_in_spawning_zone(*map, id) && id >= spawn_times@.len(),
        r matches Ok((p, n)) ==> forall|z: int| 0 <= z < 5 ==> #[trigger] count_in_zone(p@, z) == 0
            || (zone_counts@[z] < map.zones[z].0 && zone_counts@[z] + count_in_zone(p@, z) <= map.zones[z].0
                && count_in_zone(p@, z) <= NPCS_SPAWNCAP),
{
    let mut dice: Vec<SpawnDice> = Vec::new();
    while dice.len() < 25
        invariant
            dice@.len() <= 25,
        decreases 25 - dice@.len(),
    {
        let zone = dice.len() / 5;
        let n = map.zonespawns[zone].len();
        let proceed = random_below(2) == 0;
        let mut tiles: [usize; 10] = [0; 10];
        if n > 0 {
            let mut k: usize = 0;
            while k < 10
                invariant
                    k <= 10,
                    n > 0,
                decreases 10 - k,
            {
                tiles[k] = random_below(n);
                k += 1;
            }
        }
        dice.push(SpawnDice { proceed, tiles });
    }
    plan_npc_spawns_with(actor, map, zone_counts, spawn_times, time, world_npcs, &dice)
}

/// What a spawn pass over `map` promises of its outcome `r`: see
/// `plan_npc_spawns`.
pub open spec fn spawn_outcome(
    actor: MapActor,
    map: WorldMap,
    zone_counts: Seq<u64>,
    spawn_times: Seq<(GameTime, GameTime)>,
    time: GameTime,
    world_npcs: usize,
    r: Result<(Vec<PlannedSpawn>, usize), SpawnError>,
) -> bool {
    &&& r matches Ok((plan, n)) ==> {
        &&& forall|k: int| 0 <= k < plan@.len() ==> spawn_fits(actor, map, spawn_times, time, #[trigger] plan@[k])
        &&& plan@.len() <= NPCS_SPAWNCAP
        &&& n == world_npcs + plan@.len()
        &&& world_npcs >= MAX_WORLD_NPCS ==> plan@.len() == 0
        &&& world_npcs < MAX_WORLD_NPCS ==> n <= MAX_WORLD_NPCS
    }
    &&& world_npcs >= MAX_WORLD_NPCS ==> (r matches Ok((p, n)) && p@.len() == 0 && n == world_npcs)
    &&& spawn_ids_known(map, spawn_times.len() as int) ==> r is Ok
    &&& r matches Err(SpawnError::NpcNotFound(id)) ==> listed_in_spawning_zone(map, id) && id >= spawn_times.len()
    &&& r matches Ok((p, n)) ==> forall|z: int| 0 <= z < 5 ==> #[trigger] count_in_zone(p@, z) == 0
        || (zone_counts[z] < map.zones[z].0 && zone_counts[z] + count_in_zone(p@, z) <= map.zones[z].0
            && count_in_zone(p@, z) <= NPCS_SPAWNCAP)
}

/// NPCs spawn only on a map with players on or near it: without players the
/// pass spawns none and the world count stays; with players it is the pass
/// of `plan_npc_spawns`.
pub fn spawn_pass_if_players(
    players_on_map: bool,
    actor: &MapActor,
    map: &WorldMap,
    zone_counts: &[u64; 5],
    spawn_times: &Vec<(GameTime, GameTime)>,
    time: GameTime,
    world_npcs: usize,
) -> (r: Result<(Vec<PlannedSpawn>, usize), SpawnError>)
    requires
        grids_well_formed(actor.move_grids.view()),
        zone_spawns_on_map(*map),
        map_offsets_fit(map.position),
    ensures
        !players_on_map ==> (r matches Ok((p, n)) && p@.len() == 0 && n == world_npcs),
        players_on_map ==> spawn_outcome(*actor, *map, zone_counts@, spawn_times@, time, world_npcs, r),
{
    if !players_on_map {
        return Ok((Vec::new(), world_npcs));
    }
    plan_npc_spawns(actor, map, zone_counts, spawn_times, time, world_npcs)
}

proof fn lemma_count_push(plan: Seq<PlannedSpawn>, s: PlannedSpawn, z: int)
    ensures
        count_in_zone(plan.push(s), z) == count_in_zone(plan, z) + (if s.zone == z { 1nat } else { 0nat }),
    decreases plan.len(),
{
    let longer = plan.push(s);
    if plan.len() == 0 {
        assert(longer.subrange(1, 1) =~= Seq::<PlannedSpawn>::empty());
        assert(count_in_zone(Seq::<PlannedSpawn>::empty(), z) == 0);
        assert(longer[0] == s);
    } else {
        let rest = plan.subrange(1, plan.len() as int);
        assert(longer.subrange(1, longer.len() as int) =~= rest.push(s));
        assert(longer[0] == plan[0]);
        lemma_count_push(rest, s, z);
    }
}

/// Each planned spawn counts one more NPC in its zone (saturating).
pub fn record_spawns(zone_counts: &mut [u64; 5], plan: &Vec<PlannedSpawn>)
    requires
        forall|k: int| 0 <= k < plan@.len() ==> (#[trigger] plan@[k]).zone < 5,
    ensures
        forall|z: int| 0 <= z < 5 ==> #[trigger] final(zone_counts)@[z] as int == if old(zone_counts)@[z] + count_in_zone(plan@, z) <= u64::MAX {
            old(zone_counts)@[z] + count_in_zone(plan@, z)
        } else {
            u64::MAX as int
        },
{
    let ghost start = zone_counts@;
    let mut i: usize = 0;
    while i < plan.len()
        invariant
            i <= plan@.len(),
            zone_counts@.len() == 5,
            forall|k: int| 0 <= k < plan@.len() ==> (#[trigger] plan@[k]).zone < 5,
            forall|z: int| 0 <= z < 5 ==> #[trigger] zone_counts@[z] as int == if start[z] + count_in_zone(plan@.take(i as int), z) <= u64::MAX {
                start[z] + count_in_zone(plan@.take(i as int), z)
            } else {
                u64::MAX as int
            },
        decreases plan@.len() - i,
    {
        let zone = plan[i].zone;
        proof {
            assert(plan@.take(i as int + 1) =~= plan@.take(i as int).push(plan@[i as int]));
            assert forall|z: int| 0 <= z < 5 implies count_in_zone(plan@.take(i as int + 1), z)
                == count_in_zone(plan@.take(i as int), z) + (if plan@[i as int].zone == z { 1nat } else { 0nat }) by {
                lemma_count_push(plan@.take(i as int), plan@[i as int], z);
            }
        }
        zone_counts[zone] = zone_counts[zone].saturating_add(1);
        i = i + 1;
    }
    assert(plan@.take(plan@.len() as int) =~= plan@);
}

/// The NPC upkeep of one map in an update: a spawn pass when players are
/// near, its spawns counted in their zones. A map whose zones were within
/// their limits stays within them, it gains at most ten NPCs, and the world
/// never passes its NPC cap. A pass that fails counts nothing.
pub fn update_map_npcs(
    players_on_map: bool,
    actor: &MapActor,
    map: &WorldMap,
    zone_counts: &mut [u64; 5],
    spawn_times: &Vec<(GameTime, GameTime)>,
    time: GameTime,
    world_npcs: usize,
) -> (r: Result<(Vec<PlannedSpawn>, usize), SpawnError>)
    requires
        grids_well_formed(actor.move_grids.view()),
        zone_spawns_on_map(*map),
        map_offsets_fit(map.position),
    ensures
        !players_on_map ==> (r matches Ok((p, n)) && p@.len() == 0 && n == world_npcs),
        players_on_map ==> spawn_outcome(*actor, *map, old(zone_counts)@, spawn_times@, time, world_npcs, r),
        r is Err ==> final(zone_counts)@ == old(zone_counts)@,
        r matches Ok((p, n)) ==> forall|z: int| 0 <= z < 5
            ==> #[trigger] final(zone_counts)@[z] == old(zone_counts)@[z] + count_in_zone(p@, z),
        r matches Ok((p, n)) ==> {
            &&& p@.len() <= NPCS_SPAWNCAP
            &&& world_npcs <= MAX_WORLD_NPCS ==> n <= MAX_WORLD_NPCS
            &&& forall|z: int| 0 <= z < 5 && old(zone_counts)@[z] <= map.zones[z].0
                ==> #[trigger] final(zone_counts)@[z] <= map.zones[z].0
        },
{
    let r = spawn_pass_if_players(players_on_map, actor, map, zone_counts, spawn_times, time, world_npcs);
    if let Ok((plan, n)) = &r {
        proof {
            assert forall|z: int| 0 <= z < 5 implies #[trigger] count_in_zone(Seq::<PlannedSpawn>::empty(), z) == 0 by {}
            assert forall|k: int| 0 <= k < plan@.len() implies (#[trigger] plan@[k]).zone < 5 by {
                assert(spawn_fits(*actor, *map, spawn_times@, time, plan@[k]));
            }
        }
        record_spawns(zone_counts, plan);
    }
    r
}

/// The parts of an NPC that spawning sets: where it stands, its spawn
/// point, the zone that spawned it and its life state.
#[derive(Copy, Clone, Debug, PartialEq, Eq, Structural)]
pub struct NpcPlacement {
    pub position: Position,
    pub spawn: Spawn,
    pub zone: NpcSpawnedZone,
    pub death: DeathType,
}

/// Spawning an NPC at `pos` for `zone`: it stands there, spawns there from
/// now on, belongs to the zone and is spawning.
pub fn spawn_npc(npc: &mut NpcPlacement, pos: Position, zone: Option<usize>)
    ensures
        *final(npc) == (NpcPlacement {
            position: pos,
            spawn: Spawn { pos, ..old(npc).spawn },
            zone: NpcSpawnedZone(zone),
            death: DeathType::Spawning,
        }),
{
    npc.position = pos;
    npc.spawn.pos = pos;
    npc.zone = NpcSpawnedZone(zone);
    npc.death = DeathType::Spawning;
}

} // verus!
