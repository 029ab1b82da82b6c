use ascending::gametypes::enums::WorldEntityType;
use ascending::identity::actor::{EntitySlots, IdReply, IdRequest};
use ascending::identity::GlobalKey;
use ascending::ipc::ipc_actor::IpcBuffer;
use ascending::logins::actor::{LoginBuffer, LoginRead};

fn frame(payload: &[u8]) -> Vec<u8> {
    let mut v = (payload.len() as u64).to_le_bytes().to_vec();
    v.extend_from_slice(payload);
    v
}

#[test]
fn entity_keys_are_handed_out_and_freed() {
    let mut ids = EntitySlots::new();
    assert_eq!(ids.len(), 0);
    let a = ids.insert(WorldEntityType::Npc);
    let b = ids.insert(WorldEntityType::Player);
    assert_ne!(a, b);
    assert_eq!(a, GlobalKey((1 << 32) | 1));
    assert_eq!(b, GlobalKey((1 << 32) | 2));
    assert_eq!(ids.len(), 2);
    assert_eq!(ids.get(a), Some(WorldEntityType::Npc));
    assert_eq!(ids.get(b), Some(WorldEntityType::Player));
    assert_eq!(ids.remove(a), Some(WorldEntityType::Npc));
    assert_eq!(ids.get(a), None);
    assert_eq!(ids.remove(a), None);
    let c = ids.insert(WorldEntityType::MapItem);
    assert_eq!(c.index(), a.index());
    assert_eq!(c.version(), 3);
    assert_eq!(ids.get(a), None);
    assert_eq!(ids.get(c), Some(WorldEntityType::MapItem));
    assert_eq!(ids.get(GlobalKey::null()), None);
    assert_eq!(ids.get(GlobalKey(2)), Some(WorldEntityType::Player));
}

#[test]
fn failed_spawn_gives_its_key_back() {
    let mut ids = EntitySlots::new();
    let kept = ids.insert(WorldEntityType::Player);
    let key = ids.try_insert(WorldEntityType::Npc).unwrap();
    assert_eq!(ids.len(), 2);
    assert_eq!(ids.remove(key), Some(WorldEntityType::Npc));
    assert_eq!(ids.len(), 1);
    assert_eq!(ids.get(kept), Some(WorldEntityType::Player));
}

#[test]
fn key_table_serves_spawn_and_remove_requests() {
    let mut ids = EntitySlots::new();
    let key = match ids.handle_request(IdRequest::Spawn(WorldEntityType::MapItem)) {
        IdReply::Spawned(key) => key,
        IdReply::Removed(_) => panic!("a spawn request is answered with a key"),
    };
    assert_eq!(key, GlobalKey((1 << 32) | 1));
    assert_eq!(ids.get(key), Some(WorldEntityType::MapItem));
    assert!(matches!(
        ids.handle_request(IdRequest::Remove(key)),
        IdReply::Removed(Some(WorldEntityType::MapItem))
    ));
    assert_eq!(ids.len(), 0);
    assert!(matches!(ids.handle_request(IdRequest::Remove(key)), IdReply::Removed(None)));
}

#[test]
fn ipc_buffer_splits_packets() {
    let mut buf = IpcBuffer::new();
    let mut bytes = frame(&[1, 2, 3]);
    bytes.extend(frame(&[4]));
    bytes.extend_from_slice(&5u64.to_le_bytes());
    bytes.extend_from_slice(&[9, 9]);
    let r = buf.receive(&bytes, 0);
    assert!(!r.closed);
    assert_eq!(r.packets, vec![vec![1, 2, 3], vec![4]]);
    assert_eq!(buf.cursor, 20);
    let r = buf.receive(&[7, 7, 7], 0);
    assert!(!r.closed);
    assert_eq!(r.packets, vec![vec![9, 9, 7, 7, 7]]);
}

#[test]
fn ipc_buffer_refuses_bad_lengths() {
    let mut buf = IpcBuffer::new();
    let r = buf.receive(&0u64.to_le_bytes(), 0);
    assert!(r.closed);
    let mut buf = IpcBuffer::new();
    let r = buf.receive(&2000u64.to_le_bytes(), 0);
    assert!(r.closed);
    let mut buf = IpcBuffer::new();
    let r = buf.receive(&[1, 2, 3], 0);
    assert!(r.closed);
    assert!(r.packets.is_empty());
}

#[test]
fn ipc_buffer_keeps_a_partial_packet() {
    let mut buf = IpcBuffer::new();
    let bytes = frame(&[1, 2, 3, 4]);
    let r = buf.receive(&bytes[..10], 0);
    assert!(!r.closed);
    assert!(r.packets.is_empty());
    assert_eq!(buf.cursor, 0);
    let r = buf.receive(&bytes[10..], 0);
    assert_eq!(r.packets, vec![vec![1, 2, 3, 4]]);
}

#[test]
fn ipc_buffer_compacts_large_buffers() {
    let mut buf = IpcBuffer::new();
    let mut bytes = frame(&[1]);
    bytes.extend(frame(&[5, 6]));
    let r = buf.receive(&bytes[..12], 600_000);
    assert_eq!(r.packets, vec![vec![1]]);
    assert_eq!(buf.cursor, 0);
    assert_eq!(buf.bytes, bytes[1..12].to_vec());
}

#[test]
fn login_buffer_reads_one_packet_at_a_time() {
    let mut buf = LoginBuffer::new();
    let mut bytes = frame(&[1, 2]);
    bytes.extend(frame(&[3]));
    match buf.receive(&bytes, 0) {
        LoginRead::Packet(p) => assert_eq!(p, vec![1, 2]),
        other => panic!("expected a packet, got {:?}", other),
    }
    assert_eq!(buf.cursor, 10);
    match buf.receive(&[], 0) {
        LoginRead::Packet(p) => assert_eq!(p, vec![3]),
        other => panic!("expected a packet, got {:?}", other),
    }
    assert_eq!(buf.cursor, 0);
    assert!(buf.bytes.is_empty());
    assert!(matches!(buf.receive(&[1, 2, 3], 0), LoginRead::Closed));
    let mut buf = LoginBuffer::new();
    let whole = frame(&[7, 7, 7]);
    assert!(matches!(buf.receive(&whole[..9], 0), LoginRead::NeedMore));
    assert_eq!(buf.cursor, 0);
    match buf.receive(&whole[9..], 0) {
        LoginRead::Packet(p) => assert_eq!(p, vec![7, 7, 7]),
        other => panic!("expected a packet, got {:?}", other),
    }
    let mut buf = LoginBuffer::new();
    assert!(matches!(buf.receive(&5000u64.to_le_bytes(), 0), LoginRead::Closed));
}
