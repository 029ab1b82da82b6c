use ascending::containers::entity::shared_data::DeathType;
use ascending::gameloop::handledata::handle_account::{existence_answer, login_account, new_session_codes};
use ascending::gameloop::handledata::handle_general::{plan_trade_request, TradeRequest};
use ascending::gameloop::handledata::handle_item::money_left;
use ascending::gameloop::mapswitchtasks::{new_switch_tasks, record_task_keys, take_task_keys, MapSwitchTasks};
use ascending::gametypes::enums::{Dir, MapPosDir, Target, Weather, WorldEntityType};
use ascending::gametypes::error::AscendingError;
use ascending::gametypes::game_time::GameTime;
use ascending::gametypes::map_position::MapPosition;
use ascending::gametypes::position::Position;
use ascending::identity::actor::{EntitySlots, IdReply, IdRequest};
use ascending::identity::GlobalKey;
use ascending::maps::actor::MapActor;
use ascending::maps::logic::{can_target, plan_npc_spawns, plan_npc_spawns_with, SpawnDice, SpawnError};
use ascending::maps::map::{map_offset_range, MapAttribute, WorldMap};
use ascending::time_ext::MyInstant;
use ascending::gameloop::datatasks::{DataTask, DataTasks};
use ascending::containers::storage::{LogLevelFilter, ServerLevelFilter};
use ascending::maps::logic::{record_spawns, spawn_pass_if_players, update_map_npcs};
use ascending::gameloop::mapswitchtasks::{known_ids, plan_map_switch};
use ascending::gameloop::mainloop::{clock_turn, LoopState};
use ascending::containers::entity::player_data::IsUsingType;
use ascending::gameloop::handledata::handle_item::{switch_inv_slot, SlotSwitch};
use ascending::items::item::Item;

fn mp(x: i32, y: i32) -> MapPosition {
    MapPosition::new(x, y, 0)
}

#[test]
fn switch_tasks_replace_the_old_ones() {
    let mut held = vec![4u64, 9, 2];
    let removed = take_task_keys(&mut held);
    assert_eq!(removed, vec![2, 9, 4]);
    assert!(held.is_empty());
    record_task_keys(&mut held, [11, 12, 13]);
    assert_eq!(held, vec![11, 12, 13]);

    let tasks = new_switch_tasks(7, mp(1, 2), vec![1, 2], vec![3], vec![]);
    assert_eq!(tasks.len(), 3);
    match &tasks[0] {
        MapSwitchTasks::Player(t) => {
            assert_eq!(t.ownerid, 7);
            assert_eq!(t.mapid, mp(1, 2));
            assert_eq!(t.currentids, vec![1, 2]);
        }
        _ => panic!("players come first"),
    }
    assert!(matches!(&tasks[1], MapSwitchTasks::Npc(t) if t.currentids == vec![3]));
    assert!(matches!(&tasks[2], MapSwitchTasks::Items(t) if t.currentids.is_empty()));
}

#[test]
fn account_lookup_answers() {
    assert!(matches!(existence_answer(Some(0)), Ok(None)));
    assert!(matches!(existence_answer(Some(1)), Ok(Some(("Username Exists. Please try Another.", 0)))));
    assert!(matches!(existence_answer(Some(2)), Ok(Some(("Email Already Exists. Please Try Another.", 0)))));
    assert!(matches!(existence_answer(Some(5)), Err(AscendingError::RegisterFail)));
    assert!(matches!(existence_answer(None), Err(AscendingError::UserNotFound)));
    assert_eq!(login_account(Some(42)), Ok(42));
    assert_eq!(login_account(None), Err(("Account does not Exist or Password is not Correct.", 1)));
}

#[test]
fn session_codes_are_alphanumeric() {
    let (code, handshake) = new_session_codes();
    assert_eq!(code.len(), 32);
    assert_eq!(handshake.len(), 32);
    assert!(code.chars().all(|c| c.is_ascii_alphanumeric()));
    assert!(handshake.chars().all(|c| c.is_ascii_alphanumeric()));
}

#[test]
fn money_pickup_leaves_the_rest() {
    assert_eq!(money_left(0), None);
    assert_eq!(money_left(15), Some(15));
    assert_eq!(money_left(65_537), Some(1));
}

#[test]
fn default_target_is_nothing() {
    assert_eq!(Target::default(), Target::Nothing);
}

#[test]
fn map_steps_near_the_edge_of_i32() {
    let m = MapPosition::new(i32::MAX - 1, 0, 0);
    let right = m.map_offset(MapPosDir::Right);
    assert_eq!(right, MapPosition::new(i32::MAX, 0, 0));
    assert_eq!(right.map_offset(MapPosDir::Left), m);
    let far = Position::new(i32::MAX - 5, 0, mp(0, 0));
    assert_eq!(far.checkdirection(Position::new(-5, 3, mp(0, 0))), Some(Dir::Left));
    assert_eq!(Position::new(0, 0, mp(0, 0)).checkdirection(Position::new(i32::MAX, -i32::MAX, mp(0, 0))), None);
}

#[test]
fn targeting_far_from_the_origin() {
    let caster = Position::new(5, 5, MapPosition::new(3_000_000, -3_000_000, 0));
    let next = Position::new(0, 5, MapPosition::new(3_000_001, -3_000_000, 0));
    assert!(!can_target(caster, next, DeathType::Alive, 1));
    let edge = Position::new(31, 5, MapPosition::new(3_000_000, -3_000_000, 0));
    assert!(can_target(edge, next, DeathType::Alive, 1));
    let r = plan_trade_request(
        GlobalKey(1),
        Some(GlobalKey(2)),
        true,
        true,
        edge,
        next,
        DeathType::Alive,
        true,
        MyInstant(0),
        MyInstant(10),
    );
    assert_eq!(r, TradeRequest::Send { partner: GlobalKey(2), until: MyInstant(60_010) });
}

#[test]
fn range_search_records_the_maps_it_walks() {
    let allowed = vec![mp(0, 0), mp(1, 0), mp(2, 0)];
    let mut processed = Vec::new();
    let r = map_offset_range(Position::new(0, 0, mp(0, 0)), Position::new(5, 7, mp(2, 0)), &allowed, &mut processed);
    assert_eq!(r, Some(Position::new(69, 7, mp(2, 0))));
    assert!(processed.contains(&mp(0, 0)));
    assert!(processed.contains(&mp(1, 0)));
    assert!(!processed.contains(&mp(2, 0)));
    let mut processed = Vec::new();
    let r = map_offset_range(Position::new(0, 0, mp(0, 0)), Position::new(5, 7, mp(4, 0)), &vec![mp(0, 0), mp(1, 0), mp(4, 0)], &mut processed);
    assert_eq!(r, None);
    assert_eq!(processed, vec![mp(0, 0), mp(1, 0)]);
    let mut processed = vec![mp(9, 9)];
    let r = map_offset_range(Position::new(0, 0, mp(0, 0)), Position::new(5, 7, mp(0, 0)), &allowed, &mut processed);
    assert_eq!(r, Some(Position::new(5, 7, mp(0, 0))));
    assert_eq!(processed, vec![mp(9, 9)]);
}

#[test]
fn failed_spawn_key_leaves_the_table_as_before() {
    let mut ids = EntitySlots::new();
    let kept = ids.insert(WorldEntityType::Player);
    let key = match ids.handle_request(IdRequest::Spawn(WorldEntityType::Npc)) {
        IdReply::Spawned(key) => key,
        IdReply::Removed(_) => panic!("a spawn request is answered with a key"),
    };
    assert!(matches!(ids.handle_request(IdRequest::Remove(key)), IdReply::Removed(Some(WorldEntityType::Npc))));
    assert_eq!(ids.len(), 1);
    assert_eq!(ids.get(kept), Some(WorldEntityType::Player));
    assert_eq!(ids.get(key), None);
}

fn zone_map(tiles: Vec<(u16, u16)>, max: u64, npcs: [Option<u64>; 5]) -> WorldMap {
    let mut map = WorldMap {
        position: mp(0, 0),
        dir_block: vec![0; 1024],
        attribute: vec![MapAttribute::Walkable; 1024],
        zonespawns: Default::default(),
        zones: Default::default(),
        music: None,
        weather: Weather::Nothing,
    };
    map.zonespawns[0] = tiles;
    map.zones[0] = (max, npcs);
    map
}

fn times() -> Vec<(GameTime, GameTime)> {
    vec![(GameTime { hour: 0, min: 0, sec: 0 }, GameTime { hour: 23, min: 59, sec: 59 }); 2]
}

#[test]
fn spawn_passes_fail_only_on_unknown_npcs_of_spawning_zones() {
    let noon = GameTime { hour: 12, min: 0, sec: 0 };
    let map = zone_map(vec![(1, 1), (2, 2), (3, 3)], 2, [Some(0), Some(1), Some(0), None, None]);
    let mut actor = MapActor::new(mp(0, 0), MyInstant(0));
    actor.load_map(&map);
    let (plan, n) = plan_npc_spawns(&actor, &map, &[1, 0, 0, 0, 0], &times(), noon, 3).unwrap();
    assert!(plan.len() <= 1);
    assert_eq!(n, 3 + plan.len());
    let (plan, n) = plan_npc_spawns(&actor, &map, &[0; 5], &times(), noon, 100_000).unwrap();
    assert!(plan.is_empty());
    assert_eq!(n, 100_000);
    let luck = vec![SpawnDice { proceed: true, tiles: [0, 1, 2, 0, 1, 2, 0, 1, 2, 0] }; 25];
    let (plan, _) = plan_npc_spawns_with(&actor, &map, &[0; 5], &times(), noon, 3, &luck).unwrap();
    assert_eq!(plan.len(), 2);
    let no_tiles = zone_map(vec![], 2, [Some(7), None, None, None, None]);
    assert!(plan_npc_spawns(&actor, &no_tiles, &[0; 5], &times(), noon, 3).is_ok());
    let unknown = zone_map(vec![(1, 1)], 2, [Some(7), None, None, None, None]);
    assert!(matches!(
        plan_npc_spawns_with(&actor, &unknown, &[0; 5], &times(), noon, 3, &luck),
        Err(SpawnError::NpcNotFound(7))
    ));
}

#[test]
fn batch_limits_per_packet() {
    let m = mp(0, 0);
    assert_eq!(DataTasks::PlayerSpawn(DataTask::new(m)).limits(), 5);
    assert_eq!(DataTasks::NpcSpawn(DataTask::new(m)).limits(), 16);
    assert_eq!(DataTasks::NpcMove(DataTask::new(m)).limits(), 41);
    assert_eq!(DataTasks::PlayerDeath(DataTask::new(m)).limits(), 157);
    assert_eq!(DataTasks::ItemUnload(DataTask::new(m)).limits(), 176);
    assert_eq!(DataTasks::MapChat(DataTask::new(m)).limits(), 4);
    assert_eq!(DataTasks::ItemLoad(DataTask::new(m)).limits(), 28);
}

#[test]
fn level_settings_map_to_logger_levels() {
    assert_eq!(ServerLevelFilter::Off.parse_enum(), LogLevelFilter::Off);
    assert_eq!(ServerLevelFilter::Warn.parse_enum(), LogLevelFilter::Warn);
    assert_eq!(ServerLevelFilter::Trace.parse_enum(), LogLevelFilter::Trace);
}

#[test]
fn npc_spawns_only_near_players_and_are_counted() {
    let noon = GameTime { hour: 12, min: 0, sec: 0 };
    let map = zone_map(vec![(1, 1), (2, 2), (3, 3)], 2, [Some(0), Some(1), Some(0), None, None]);
    let mut actor = MapActor::new(mp(0, 0), MyInstant(0));
    actor.load_map(&map);
    let (plan, n) = spawn_pass_if_players(false, &actor, &map, &[0; 5], &times(), noon, 3).unwrap();
    assert!(plan.is_empty());
    assert_eq!(n, 3);
    let mut counts = [0u64; 5];
    let (plan, n) = update_map_npcs(false, &actor, &map, &mut counts, &times(), noon, 3).unwrap();
    assert!(plan.is_empty() && n == 3 && counts == [0; 5]);
    for _ in 0..10 {
        let mut counts = [1u64, 0, 0, 0, 0];
        let (plan, n) = update_map_npcs(true, &actor, &map, &mut counts, &times(), noon, 3).unwrap();
        assert_eq!(counts[0], 1 + plan.len() as u64);
        assert!(counts[0] <= 2);
        assert_eq!(n, 3 + plan.len());
    }
    let unknown = zone_map(vec![(1, 1)], 2, [Some(7), None, None, None, None]);
    let mut counts = [0u64; 5];
    let r = update_map_npcs(true, &actor, &unknown, &mut counts, &times(), noon, 3);
    if r.is_err() {
        assert_eq!(counts, [0; 5]);
    }
    let luck = vec![SpawnDice { proceed: true, tiles: [0; 10] }; 25];
    let (plan, _) = plan_npc_spawns_with(&actor, &map, &[0; 5], &times(), noon, 3, &luck).unwrap();
    let mut counts = [0u64, 4, 0, 0, u64::MAX];
    record_spawns(&mut counts, &plan);
    assert_eq!(counts, [2, 4, 0, 0, u64::MAX]);
}

#[test]
fn map_switch_lists_per_kind() {
    let old_maps = vec![Some(vec![1u64, 2]), None, Some(vec![3])];
    assert_eq!(known_ids(&old_maps), vec![1, 2, 3]);
    let (load, remove) = plan_map_switch(&old_maps, &Some(vec![3, 7]), &vec![Some(vec![8]), None, Some(vec![1])]);
    assert_eq!(load, vec![7, 8]);
    assert_eq!(remove, vec![2]);
    let (load, remove) = plan_map_switch(&old_maps, &None, &vec![Some(vec![8])]);
    assert!(load.is_empty());
    assert_eq!(remove, vec![1, 2, 3]);
}

#[test]
fn game_clock_moves_once_a_minute() {
    let mut state = LoopState::new(MyInstant(0), 0);
    let mut time = GameTime { hour: 23, min: 59, sec: 7 };
    assert!(clock_turn(&mut state, &mut time, MyInstant(1)).advance_minute);
    assert_eq!(time, GameTime { hour: 0, min: 0, sec: 7 });
    assert!(!clock_turn(&mut state, &mut time, MyInstant(60_001)).advance_minute);
    assert_eq!(time, GameTime { hour: 0, min: 0, sec: 7 });
    assert!(clock_turn(&mut state, &mut time, MyInstant(60_002)).advance_minute);
    assert_eq!(time, GameTime { hour: 0, min: 1, sec: 7 });
}

#[test]
fn switching_bag_slots_keeps_the_items() {
    let it = |num: u32, val: u16| Item { num, val, level: 1, data: [0; 5] };
    let mut bag = vec![Item::default(); 30];
    bag[0] = it(3, 10);
    bag[1] = it(3, 5);
    bag[2] = it(4, 1);
    let now = MyInstant(10);
    let r = switch_inv_slot(DeathType::Alive, IsUsingType::Idle, false, false, MyInstant(0), now, &mut bag, 0, 2, 10);
    assert_eq!(r, SlotSwitch::Swap);
    assert_eq!(bag[0], it(4, 1));
    assert_eq!(bag[2], it(3, 10));
    let r = switch_inv_slot(DeathType::Alive, IsUsingType::Idle, false, false, MyInstant(0), now, &mut bag, 2, 9, 3);
    assert_eq!(r, SlotSwitch::Swap);
    assert_eq!(bag[9], it(3, 10));
    assert_eq!(bag[2], Item::default());
    let before = bag.clone();
    let r = switch_inv_slot(DeathType::Alive, IsUsingType::Idle, false, false, MyInstant(0), now, &mut bag, 9, 1, 4);
    assert_eq!(r, SlotSwitch::Merge(4));
    assert_eq!(bag, before);
}
