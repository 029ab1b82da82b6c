use ascending::containers::entity::player_data::{IsUsingType, UserAccess};
use ascending::containers::entity::shared_data::DeathType;
use ascending::database::map::{MapAttribute as StoredAttribute, MapData};
use ascending::gameloop::handledata::handle_action::{
    attack_aim, decide_attack, decide_dir, decide_move, decide_settarget, interact_with, tile_ahead, AttackAim,
    AttackStart, MoveDecision,
};
use ascending::gameloop::handledata::router::{check_packet, ClientPacket};
use ascending::gameloop::mainloop::{npc_batches, EntityWork, LoopState, NpcWork};
use ascending::gameloop::mapswitchtasks::{collect_ids, plan_id_switch};
use ascending::gametypes::enums::{Target, WorldEntityType};
use ascending::gametypes::error::AscendingError;
use ascending::gametypes::game_time::GameTime;
use ascending::gametypes::map_position::MapPosition;
use ascending::gametypes::position::Position;
use ascending::gametypes::target::Targeting;
use ascending::identity::GlobalKey;
use ascending::ipc::info_actor::{InfoOutGoing, OnlineUsers};
use ascending::logins::actor::{buffer_check, get_length, BufferUpkeep, BUFFER_SIZE};
use ascending::maps::map::MapAttribute;
use ascending::time_ext::MyInstant;

fn at(x: i32, y: i32) -> Position {
    Position::new(x, y, MapPosition::new(0, 0, 0))
}

#[test]
fn game_clock() {
    let mut t = GameTime { hour: 23, min: 59, sec: 10 };
    assert_eq!(t.get_time(), 23 * 3600 + 59 * 60 + 10);
    t.advance_minute();
    assert_eq!(t, GameTime { hour: 0, min: 0, sec: 10 });
    assert_eq!(t.get_time(), 10);
    let mut u = GameTime { hour: 3, min: 10, sec: 0 };
    u.advance_minute();
    assert_eq!(u, GameTime { hour: 3, min: 11, sec: 0 });
    assert_eq!(GameTime { hour: 25, min: 0, sec: 0 }.get_time(), 0);
    let noon = GameTime { hour: 12, min: 0, sec: 0 };
    assert!(noon.in_range(GameTime { hour: 6, min: 0, sec: 0 }, GameTime { hour: 18, min: 0, sec: 0 }));
    assert!(!noon.in_range(GameTime { hour: 13, min: 0, sec: 0 }, GameTime { hour: 18, min: 0, sec: 0 }));
}

#[test]
fn keys_and_instants() {
    let k = GlobalKey((3u64 << 32) | 17);
    assert_eq!(k.index(), 17);
    assert_eq!(k.version(), 3);
    assert!(GlobalKey::null().is_null());
    assert!(GlobalKey::default().is_null());
    assert!(!k.is_null());
    assert_eq!(MyInstant(5).add_millis(10), MyInstant(15));
    assert!(MyInstant(6).is_after(MyInstant(5)));
    assert!(!MyInstant(5).is_after(MyInstant(5)));
}

#[test]
fn packet_routing() {
    assert!(matches!(check_packet(ClientPacket::Login, true), Err(AscendingError::MultiLogin)));
    assert!(matches!(check_packet(ClientPacket::Move, false), Err(AscendingError::PacketManipulation { .. })));
    assert!(matches!(check_packet(ClientPacket::OnlineCheck, false), Ok(false)));
    assert!(matches!(check_packet(ClientPacket::Login, false), Ok(true)));
    assert!(matches!(check_packet(ClientPacket::Move, true), Ok(true)));
}

#[test]
fn moving_and_turning() {
    let p = at(4, 4);
    assert_eq!(decide_move(DeathType::Alive, IsUsingType::Idle, false, true, 2, p, p).unwrap(), MoveDecision::Step(2));
    assert_eq!(decide_move(DeathType::Alive, IsUsingType::Idle, false, true, 2, at(4, 5), p).unwrap(), MoveDecision::Resync(p));
    assert!(matches!(decide_move(DeathType::Alive, IsUsingType::Idle, false, true, 4, p, p), Err(AscendingError::InvalidPacket)));
    assert!(matches!(decide_move(DeathType::Alive, IsUsingType::Idle, false, false, 1, p, p), Err(AscendingError::InvalidPacket)));
    assert_eq!(decide_move(DeathType::Alive, IsUsingType::Idle, true, true, 1, p, p).unwrap(), MoveDecision::Ignore);
    assert_eq!(decide_move(DeathType::Dead, IsUsingType::Idle, false, true, 1, p, p).unwrap(), MoveDecision::Ignore);
    assert_eq!(decide_dir(DeathType::Alive, IsUsingType::Idle, 3).unwrap(), Some(3));
    assert!(matches!(decide_dir(DeathType::Alive, IsUsingType::Idle, 9), Err(AscendingError::InvalidPacket)));
    assert_eq!(decide_dir(DeathType::Alive, IsUsingType::Bank, 9).unwrap(), None);
}

#[test]
fn attacking() {
    let go = |timer, dir| decide_attack(DeathType::Alive, IsUsingType::Idle, false, MyInstant(timer), MyInstant(1000), 1, dir);
    assert_eq!(go(900, 1).unwrap(), Some(AttackStart { turn: false, next_attack: MyInstant(1250) }));
    assert_eq!(go(900, 2).unwrap(), Some(AttackStart { turn: true, next_attack: MyInstant(1250) }));
    assert_eq!(go(1100, 2).unwrap(), None);
    assert!(matches!(go(900, 5), Err(AscendingError::InvalidPacket)));
    assert_eq!(attack_aim(Some(GlobalKey(4)), true), AttackAim::Fight(GlobalKey(4)));
    assert_eq!(attack_aim(Some(GlobalKey(4)), false), AttackAim::Nothing);
    assert_eq!(attack_aim(None, false), AttackAim::Interact);
    assert_eq!(decide_settarget(Some(GlobalKey(4)), false), None);
    assert_eq!(decide_settarget(Some(GlobalKey(4)), true), Some(Some(GlobalKey(4))));
    assert_eq!(decide_settarget(None, false), Some(None));
}

#[test]
fn using_what_lies_ahead() {
    assert_eq!(tile_ahead(at(31, 5), 1), Position::new(0, 5, MapPosition::new(1, 0, 0)));
    assert_eq!(tile_ahead(at(3, 31), 2), Position::new(3, 0, MapPosition::new(0, 1, 0)));
    assert_eq!(tile_ahead(at(0, 5), 3), Position::new(31, 5, MapPosition::new(-1, 0, 0)));
    assert_eq!(tile_ahead(at(3, 0), 0), Position::new(3, 31, MapPosition::new(0, -1, 0)));
    assert_eq!(tile_ahead(at(3, 3), 1), at(4, 3));
    assert_eq!(interact_with(&MapAttribute::Storage), Some(IsUsingType::Bank));
    assert_eq!(interact_with(&MapAttribute::Shop(4)), Some(IsUsingType::Store(4)));
    assert_eq!(interact_with(&MapAttribute::Walkable), None);
}

#[test]
fn loop_shares_out_work() {
    assert_eq!(npc_batches(0), 0);
    assert_eq!(npc_batches(5), 1);
    assert_eq!(npc_batches(11), 3);
    let mut s = LoopState::new(MyInstant(0), 7);
    assert_eq!(s.max_batch, 2);
    let a = s.turn(MyInstant(1));
    assert_eq!(a.entity, Some(EntityWork::Players));
    assert_eq!(a.npc, Some(NpcWork::Spawn(0)));
    assert!(a.update_maps && a.advance_minute && a.ping);
    let b = s.turn(MyInstant(2));
    assert_eq!(b.entity, None);
    assert_eq!(b.npc, Some(NpcWork::Targeting(1)));
    assert!(!b.update_maps && !b.advance_minute && !b.ping);
    let c = s.turn(MyInstant(102));
    assert_eq!(c.entity, Some(EntityWork::Connections));
    assert_eq!(c.npc, Some(NpcWork::Movement(1)));
    let d = s.turn(MyInstant(103));
    assert_eq!(d.entity, Some(EntityWork::MapItems));
    assert_eq!(d.npc, Some(NpcWork::Combat(1)));
    let e = s.turn(MyInstant(104));
    assert_eq!(e.entity, Some(EntityWork::Players));
    assert_eq!(e.npc, Some(NpcWork::Spawn(1)));
    let f = s.turn(MyInstant(105));
    assert_eq!(f.npc, Some(NpcWork::Unload));
    s.set_npc_count(20);
    assert_eq!(s.max_batch, 4);
    assert_eq!(s.npc_batch, 0);
    assert_eq!(s.tmr150, MyInstant(255));
    assert!(!s.turn(MyInstant(501)).update_maps);
    assert!(s.turn(MyInstant(502)).update_maps);
}

#[test]
fn online_users_registry() {
    let mut users = OnlineUsers::new(GameTime { hour: 1, min: 2, sec: 3 });
    assert_eq!(users.player_logged_in(GlobalKey(1), "ann".to_string(), UserAccess::Nothing), 1);
    assert_eq!(users.player_logged_in(GlobalKey(2), "bob".to_string(), UserAccess::Admin), 2);
    assert_eq!(users.player_logged_in(GlobalKey(3), "ann".to_string(), UserAccess::Monitor), 2);
    match users.handle_request() {
        InfoOutGoing::SendOnlineUsers(list) => {
            assert_eq!(list.len(), 2);
            let ann = list.iter().find(|p| p.username == "ann").unwrap();
            assert_eq!(ann.key, GlobalKey(3));
            assert_eq!(ann.access, UserAccess::Monitor);
        }
        InfoOutGoing::Nothing => panic!("expected the user list"),
    }
    assert_eq!(users.player_logged_out(&"ann".to_string()), 1);
    assert_eq!(users.player_logged_out(&"zed".to_string()), 1);
    users.set_time(GameTime { hour: 5, min: 0, sec: 0 });
    assert_eq!(users.game_time, GameTime { hour: 5, min: 0, sec: 0 });
}

#[test]
fn login_then_logout_restores_registry() {
    let mut users = OnlineUsers::new(GameTime { hour: 0, min: 0, sec: 0 });
    users.player_logged_in(GlobalKey(1), "ann".to_string(), UserAccess::Nothing);
    let before: Vec<String> = users.users.iter().map(|p| p.username.clone()).collect();
    users.player_logged_in(GlobalKey(2), "cid".to_string(), UserAccess::Nothing);
    users.player_logged_out(&"cid".to_string());
    let after: Vec<String> = users.users.iter().map(|p| p.username.clone()).collect();
    assert_eq!(before, after);
}

#[test]
fn packet_framing() {
    assert!(matches!(get_length(7, 100), Ok(None)));
    assert!(matches!(get_length(8, 100), Ok(Some(100))));
    assert!(matches!(get_length(8, BUFFER_SIZE as u64), Ok(Some(1536))));
    assert!(matches!(get_length(8, 0), Err(AscendingError::InvalidPacketSize { length: 0, max: 1536 })));
    assert!(matches!(get_length(8, 1537), Err(AscendingError::InvalidPacketSize { length: 1537, .. })));
    assert_eq!(buffer_check(10, 10, 600_000), BufferUpkeep::Clear { shrink: true });
    assert_eq!(buffer_check(10, 10, 1000), BufferUpkeep::Clear { shrink: false });
    assert_eq!(buffer_check(0, 10, 600_000), BufferUpkeep::Compact);
    assert_eq!(buffer_check(0, 200_000, 600_000), BufferUpkeep::Keep);
    assert_eq!(buffer_check(0, 10, 1000), BufferUpkeep::Keep);
}

#[test]
fn map_switch_ids() {
    let lists = vec![vec![1u64, 2], vec![3]];
    assert_eq!(collect_ids(&lists), vec![1, 2, 3]);
    let (load, gone) = plan_id_switch(&vec![1, 2, 3], &vec![2, 3, 4]);
    assert_eq!(load, vec![4]);
    assert_eq!(gone, vec![1]);
}

#[test]
fn targets_follow_their_entity() {
    let mut t = Targeting { target: Target::npc(GlobalKey(5), at(1, 1)), timer: MyInstant(0) };
    assert_eq!(t.get_pos(), Some(at(1, 1)));
    t.update_pos(at(2, 2));
    assert_eq!(t.get_pos(), Some(at(2, 2)));
    let mut none = Targeting { target: Target::Nothing, timer: MyInstant(0) };
    none.update_pos(at(2, 2));
    assert_eq!(none.get_pos(), None);
    assert!(Target::npc(GlobalKey(5), at(1, 1)).is_npc());
    assert_eq!(Target::npc(GlobalKey(5), at(1, 1)).get_id(), GlobalKey(5));
    let _ = WorldEntityType::Npc;
}

#[test]
fn stored_map_defaults() {
    let m = MapData::default();
    assert_eq!(m.tile.len(), 9);
    assert!(m.tile.iter().all(|l| l.id.len() == 1024 && l.id.iter().all(|v| *v == 0)));
    assert_eq!(m.attribute.len(), 1024);
    assert!(m.attribute.iter().all(|a| *a == StoredAttribute::Walkable));
    assert!(m.zonespawns.iter().all(|z| z.is_empty()));
    assert_eq!(m.fixed_weather, 0);
}
