use ascending::containers::entity::npc_data::NpcSpawnedZone;
use ascending::containers::entity::shared_data::{DeathType, Spawn};
use ascending::gametypes::enums::{MapPosDir, Weather, WorldEntityType};
use ascending::gametypes::map_position::MapPosition;
use ascending::gametypes::position::Position;
use ascending::identity::GlobalKey;
use ascending::items::item::Item;
use ascending::items::itemdata::{ItemData, Rgba};
use ascending::gametypes::enums::ItemTypes;
use ascending::maps::actor::MapActor;
use ascending::gametypes::game_time::GameTime;
use ascending::maps::logic::{
    can_target, create_mapitem, plan_npc_spawns, plan_npc_spawns_with, spawn_npc, NpcPlacement, SpawnDice, SpawnError,
};
use ascending::maps::map::{GridAttribute, ItemSpawnData, MapAttribute, WorldMap};
use ascending::maps::mapitem::{find_drop_pos, plan_drop_steps, DropItem, DropStep, MapItem};
use ascending::maps::packets::{settle_drop_answer, MapQuickResponse};
use ascending::maps::store::MapActorStore;
use ascending::time_ext::MyInstant;

fn origin() -> MapPosition {
    MapPosition::new(0, 0, 0)
}

fn world_map(position: MapPosition, special: &[(usize, MapAttribute)]) -> WorldMap {
    let mut attribute = vec![MapAttribute::Walkable; 1024];
    for (i, a) in special {
        attribute[*i] = a.clone();
    }
    WorldMap {
        position,
        dir_block: vec![0; 1024],
        attribute,
        zonespawns: Default::default(),
        zones: Default::default(),
        music: None,
        weather: Weather::Nothing,
    }
}

fn loaded_actor(special: &[(usize, MapAttribute)]) -> MapActor {
    let mut actor = MapActor::new(origin(), MyInstant(100));
    actor.load_map(&world_map(origin(), special));
    actor
}

fn data(stackable: bool, stacklimit: u16) -> ItemData {
    ItemData {
        name: "coin".to_string(),
        levelreq: 0,
        soundid: 0,
        sprite: 0,
        animation: None,
        data: [0; 20],
        itemtype: ItemTypes::Nothing,
        itemtype2: 0,
        breakable: false,
        stackable,
        stacklimit,
        baseprice: 0,
        repairable: false,
        rgba: Rgba { r: 0, g: 0, b: 0, a: 0 },
        sound_index: None,
    }
}

#[test]
fn loading_a_map_builds_its_grid_and_spawns() {
    let spawn = MapAttribute::ItemSpawn(ItemSpawnData { index: 4, amount: 2, timer: 500 });
    let actor = loaded_actor(&[(33, MapAttribute::Blocked), (34, MapAttribute::NpcBlocked), (35, spawn)]);
    assert!(actor.move_grids.contains(origin()));
    let at = |x, y| Position::new(x, y, origin());
    assert_eq!(actor.move_grids.tile(at(1, 1)).unwrap().attr, GridAttribute::Blocked);
    assert!(actor.is_blocked_tile(at(1, 1), WorldEntityType::Player));
    assert!(actor.is_blocked_tile(at(2, 1), WorldEntityType::Npc));
    assert!(!actor.is_blocked_tile(at(2, 1), WorldEntityType::Player));
    assert!(!actor.is_blocked_tile(at(5, 5), WorldEntityType::Npc));
    assert_eq!(actor.spawnable_item.len(), 1);
    assert_eq!(actor.spawnable_item[0].pos, at(3, 1));
    assert_eq!(actor.spawnable_item[0].timer_set, 500);
    assert!(!actor.move_grids.contains(MapPosition::new(1, 0, 0)));
}

#[test]
fn entities_on_the_grid() {
    let mut actor = loaded_actor(&[]);
    let p = Position::new(7, 7, origin());
    let before = actor.move_grids.tile(p);
    actor.add_entity_to_grid(p);
    assert_eq!(actor.move_grids.tile(p).unwrap().count, 1);
    assert!(actor.is_blocked_tile(p, WorldEntityType::Player));
    assert!(!actor.is_blocked_tile(p, WorldEntityType::MapItem));
    actor.remove_entity_from_grid(p);
    assert_eq!(actor.move_grids.tile(p), before);
    actor.add_item_to_grid(p, GlobalKey(9), 3, 4);
    assert_eq!(actor.move_grids.tile(p).unwrap().item, Some((GlobalKey(9), 3, 4)));
    actor.remove_item_from_grid(p);
    assert_eq!(actor.move_grids.tile(p).unwrap().item, None);
}

#[test]
fn directional_blocks() {
    let mut map = world_map(origin(), &[]);
    map.dir_block[tile(5, 5)] = 0b0000_0001;
    let mut actor = MapActor::new(origin(), MyInstant(0));
    actor.load_map(&map);
    let p = Position::new(5, 5, origin());
    assert!(actor.is_dir_blocked(p, 0));
    assert!(!actor.is_dir_blocked(p, 1));
    assert!(actor.map_path_blocked(p, Position::new(5, 4, origin()), 0, WorldEntityType::Player));
    assert!(!actor.map_path_blocked(p, Position::new(6, 5, origin()), 1, WorldEntityType::Player));
    assert_eq!(actor.get_dir_mapid(origin(), MapPosDir::Center), Some(origin()));
    assert_eq!(actor.get_dir_mapid(origin(), MapPosDir::Up), None);
}

fn tile(x: usize, y: usize) -> usize {
    y * 32 + x
}

#[test]
fn item_spawn_points_come_due() {
    let spawn = MapAttribute::ItemSpawn(ItemSpawnData { index: 4, amount: 2, timer: 500 });
    let mut actor = loaded_actor(&[(tile(3, 1), spawn.clone()), (tile(4, 1), spawn)]);
    actor.add_item_to_grid(Position::new(4, 1, origin()), GlobalKey(1), 4, 2);
    let due = actor.update_item_spawns();
    assert_eq!(due.len(), 1);
    assert_eq!(due[0].pos, Position::new(3, 1, origin()));
    assert_eq!(actor.spawnable_item[1].timer, MyInstant(600));
}

#[test]
fn despawning_items() {
    let actor = MapActor::new(origin(), MyInstant(1000));
    let at = |despawn| {
        let mut m = MapItem::new(1);
        m.despawn = despawn;
        m
    };
    let mut store = MapActorStore::new();
    store.insert_item(GlobalKey(10), at(Some(MyInstant(999))));
    store.insert_item(GlobalKey(11), at(None));
    store.insert_item(GlobalKey(12), at(Some(MyInstant(1001))));
    store.insert_item(GlobalKey(13), at(Some(MyInstant(1000))));
    assert_eq!(actor.update_map_items(&mut store), vec![GlobalKey(10), GlobalKey(13)]);
    let left: Vec<u64> = store.items.keys().copied().collect();
    assert_eq!(left, vec![12, 11]);
    assert_eq!(store.remove_item(GlobalKey(12)).map(|i| i.despawn), Some(Some(MyInstant(1001))));
    assert_eq!(store.remove_item(GlobalKey(12)), None);
    assert!(actor.update_map_items(&mut store).is_empty());
}

#[test]
fn finding_room_for_drops() {
    let actor = loaded_actor(&[]);
    let items = vec![data(true, 10)];
    let drop = DropItem { player: GlobalKey(1), index: 0, amount: 3, pos: Position::new(5, 5, origin()) };
    let found = find_drop_pos(&actor, &items, drop);
    assert_eq!(found, vec![(Position::new(4, 4, origin()), None)]);
    let unknown = DropItem { index: 7, ..drop };
    assert!(find_drop_pos(&actor, &items, unknown).is_empty());
}

#[test]
fn stacking_onto_piles_first() {
    let mut actor = loaded_actor(&[]);
    let pos = Position::new(5, 5, origin());
    actor.add_item_to_grid(pos, GlobalKey(3), 0, 8);
    let items = vec![data(true, 10)];
    let drop = DropItem { player: GlobalKey(1), index: 0, amount: 3, pos };
    let found = find_drop_pos(&actor, &items, drop);
    assert!(!found.is_empty());
    assert_eq!(found[0].1, Some((GlobalKey(3), 2)));
}

#[test]
fn planning_drop_steps() {
    let own = origin();
    let other = MapPosition::new(1, 0, 0);
    let here = Position::new(5, 5, own);
    let there = Position::new(0, 5, other);
    let found = vec![(here, Some((GlobalKey(3), 2))), (there, Some((GlobalKey(4), 5))), (here, None)];
    let (steps, waited, sent) = plan_drop_steps(own, true, 4, &found, &vec![other]);
    assert_eq!(
        steps,
        vec![
            DropStep::StackLocal { pos: here, key: GlobalKey(3), amount: 2 },
            DropStep::RequestStack { pos: there, amount: 2 },
            DropStep::PlaceLocal { pos: here, amount: 4 },
        ]
    );
    assert_eq!(waited, 2);
    assert!(sent);
    let (steps, waited, sent) = plan_drop_steps(own, true, 4, &found, &vec![]);
    assert_eq!(steps[1], DropStep::PlaceLocal { pos: here, amount: 4 });
    assert_eq!(waited, 2);
    assert!(!sent);
    let (steps, _, _) = plan_drop_steps(own, false, 4, &found, &vec![]);
    assert_eq!(steps, vec![DropStep::PlaceLocal { pos: here, amount: 4 }]);
    let (steps, _, sent) = plan_drop_steps(own, false, 4, &vec![(there, None)], &vec![other]);
    assert_eq!(steps, vec![DropStep::RequestPlace { pos: there, amount: 4 }]);
    assert!(sent);
}

#[test]
fn settling_drop_answers() {
    let drop = DropItem { player: GlobalKey(1), index: 0, amount: 9, pos: Position::new(0, 0, origin()) };
    let answer = MapQuickResponse::DropItem { map_id: origin(), item: drop, drop_amount: 3, claim_id: GlobalKey(5) };
    assert_eq!(settle_drop_answer(5, answer), (2, Some((origin(), DropItem { amount: 3, ..drop }, GlobalKey(5)))));
    let nothing = MapQuickResponse::DropItem { map_id: origin(), item: drop, drop_amount: 0, claim_id: GlobalKey(5) };
    assert_eq!(settle_drop_answer(5, nothing), (5, None));
    assert_eq!(settle_drop_answer(5, MapQuickResponse::Nothing), (5, None));
}

#[test]
fn targeting_and_items() {
    let a = Position::new(5, 5, origin());
    assert!(can_target(a, Position::new(6, 6, origin()), DeathType::Alive, 1));
    assert!(!can_target(a, Position::new(7, 6, origin()), DeathType::Alive, 1));
    assert!(!can_target(a, Position::new(6, 6, origin()), DeathType::Dead, 1));
    assert!(can_target(Position::new(31, 5, origin()), Position::new(0, 5, MapPosition::new(1, 0, 0)), DeathType::Alive, 1));
    let m = create_mapitem(4, 9, a);
    assert_eq!(m.item, Item { num: 4, val: 9, level: 1, data: [0; 5] });
    assert!(m.key.is_null());
    assert_eq!(m.despawn, None);
}

#[test]
fn spawning_an_npc() {
    let old = Position::new(1, 1, origin());
    let mut npc = NpcPlacement {
        position: old,
        spawn: Spawn { pos: old, just_spawned: MyInstant(7) },
        zone: NpcSpawnedZone(None),
        death: DeathType::Dead,
    };
    let p = Position::new(9, 9, origin());
    spawn_npc(&mut npc, p, Some(2));
    assert_eq!(npc.position, p);
    assert_eq!(npc.spawn, Spawn { pos: p, just_spawned: MyInstant(7) });
    assert_eq!(npc.zone, NpcSpawnedZone(Some(2)));
    assert_eq!(npc.death, DeathType::Spawning);
}

fn spawn_map(tiles: Vec<(u16, u16)>, max: u64, npcs: [Option<u64>; 5]) -> WorldMap {
    let mut map = world_map(origin(), &[]);
    map.zonespawns[0] = tiles;
    map.zones[0] = (max, npcs);
    map
}

fn dice(proceed: bool, tiles: [usize; 10]) -> Vec<SpawnDice> {
    vec![SpawnDice { proceed, tiles }; 25]
}

fn all_day() -> Vec<(GameTime, GameTime)> {
    vec![(GameTime { hour: 0, min: 0, sec: 0 }, GameTime { hour: 23, min: 59, sec: 59 }); 3]
}

#[test]
fn spawn_pass_with_given_luck() {
    let map = spawn_map(vec![(1, 1), (2, 2)], 3, [Some(0), Some(1), None, None, None]);
    let mut actor = MapActor::new(origin(), MyInstant(0));
    actor.load_map(&map);
    actor.add_entity_to_grid(Position::new(1, 1, origin()));
    let noon = GameTime { hour: 12, min: 0, sec: 0 };
    let (plan, n) = plan_npc_spawns_with(&actor, &map, &[0; 5], &all_day(), noon, 7, &dice(true, [0, 1, 0, 0, 0, 0, 0, 0, 0, 0])).unwrap();
    assert_eq!(plan.len(), 2);
    assert_eq!(plan[0].pos, Position::new(2, 2, origin()));
    assert_eq!(plan[0].npc_id, 0);
    assert_eq!(plan[1].npc_id, 1);
    assert_eq!(n, 9);
    let (plan, n) = plan_npc_spawns_with(&actor, &map, &[0; 5], &all_day(), noon, 7, &dice(false, [1; 10])).unwrap();
    assert!(plan.is_empty());
    assert_eq!(n, 7);
    let (plan, _) = plan_npc_spawns_with(&actor, &map, &[0; 5], &all_day(), noon, 7, &dice(true, [0; 10])).unwrap();
    assert!(plan.is_empty());
    let (plan, _) = plan_npc_spawns_with(&actor, &map, &[3, 0, 0, 0, 0], &all_day(), noon, 7, &dice(true, [1; 10])).unwrap();
    assert!(plan.is_empty());
    let (plan, _) = plan_npc_spawns_with(&actor, &map, &[2, 0, 0, 0, 0], &all_day(), noon, 7, &dice(true, [1; 10])).unwrap();
    assert_eq!(plan.len(), 1);
    let (plan, n) = plan_npc_spawns_with(&actor, &map, &[0; 5], &all_day(), noon, 100_000, &dice(true, [1; 10])).unwrap();
    assert!(plan.is_empty());
    assert_eq!(n, 100_000);
    let unknown = spawn_map(vec![(1, 1)], 3, [Some(9), None, None, None, None]);
    assert!(matches!(
        plan_npc_spawns_with(&actor, &unknown, &[0; 5], &all_day(), noon, 7, &dice(true, [0; 10])),
        Err(SpawnError::NpcNotFound(9))
    ));
}

#[test]
fn random_spawn_pass_keeps_its_bounds() {
    let map = spawn_map(vec![(1, 1), (2, 2), (3, 3)], 10, [Some(0), Some(1), Some(2), None, None]);
    let mut actor = MapActor::new(origin(), MyInstant(0));
    actor.load_map(&map);
    let noon = GameTime { hour: 12, min: 0, sec: 0 };
    let mut spawned = 0;
    for _ in 0..20 {
        let (plan, n) = plan_npc_spawns(&actor, &map, &[0; 5], &all_day(), noon, 5).unwrap();
        spawned += plan.len();
        assert!(plan.len() <= 3);
        assert_eq!(n, 5 + plan.len());
        for s in &plan {
            assert_eq!(s.zone, 0);
            assert!([(1, 1), (2, 2), (3, 3)].contains(&(s.pos.x, s.pos.y)));
        }
    }
    assert!(spawned > 0);
}
