use vstd::prelude::*;

use crate::gametypes::map_position::MapPosition;

verus! {

/// Packet data waiting to be sent to one map, batched.
#[derive(Clone, Debug, PartialEq, Eq)]
pub struct DataTask<T> {
    pub mapid: MapPosition,
    pub data: Vec<T>,
}

impl<T> DataTask<T> {
    /// An empty batch for map `mapid`.
    pub fn new(mapid: MapPosition) -> (r: DataTask<T>)
        ensures
            r.mapid == mapid,
            r.data@.len() == 0,
    {
        DataTask { mapid, data: Vec::new() }
    }
}

/// Batches by kind. Packets are held encoded; removals and attacks by id.
#[derive(Clone, Debug)]
pub enum DataTasks {
    NpcMove(DataTask<Vec<u8>>),
    NpcDir(DataTask<Vec<u8>>),
    NpcDeath(DataTask<Vec<u8>>),
    NpcUnload(DataTask<u64>),
    NpcAttack(DataTask<u64>),
    NpcSpawn(DataTask<Vec<u8>>),
    PlayerMove(DataTask<Vec<u8>>),
    PlayerDir(DataTask<Vec<u8>>),
    PlayerDeath(DataTask<Vec<u8>>),
    PlayerUnload(DataTask<u64>),
    PlayerAttack(DataTask<u64>),
    PlayerSpawn(DataTask<Vec<u8>>),
    MapChat(DataTask<Vec<u8>>),
    ItemUnload(DataTask<u64>),
    ItemLoad(DataTask<Vec<u8>>),
}

impl DataTasks {
    /// How many entries of this kind go in one packet, whose data part holds
    /// at worst 1420 bytes: up to 16 NPC spawns (80 bytes each) and up to 5
    /// player spawns (226 bytes each).
    pub fn limits(&self) -> (r: usize)
        ensures
            r == (match *self {
                DataTasks::NpcMove(_) | DataTasks::PlayerMove(_) => 41usize,
                DataTasks::NpcDir(_) | DataTasks::PlayerDir(_) | DataTasks::NpcDeath(_)
                | DataTasks::PlayerDeath(_) => 157usize,
                DataTasks::NpcUnload(_) | DataTasks::PlayerUnload(_) | DataTasks::NpcAttack(_)
                | DataTasks::PlayerAttack(_) | DataTasks::ItemUnload(_) => 176usize,
                DataTasks::NpcSpawn(_) => 16usize,
                DataTasks::PlayerSpawn(_) => 5usize,
                DataTasks::MapChat(_) => 4usize,
                DataTasks::ItemLoad(_) => 28usize,
            }),
    {
        match self {
            DataTasks::NpcMove(_) | DataTasks::PlayerMove(_) => 41,
            DataTasks::NpcDir(_) | DataTasks::PlayerDir(_) | DataTasks::NpcDeath(_)
            | DataTasks::PlayerDeath(_) => 157,
            DataTasks::NpcUnload(_) | DataTasks::PlayerUnload(_) | DataTasks::NpcAttack(_)
            | DataTasks::PlayerAttack(_) | DataTasks::ItemUnload(_) => 176,
            DataTasks::NpcSpawn(_) => 16,
            DataTasks::PlayerSpawn(_) => 5,
            DataTasks::MapChat(_) => 4,
            DataTasks::ItemLoad(_) => 28,
        }
    }
}

/// Which batch of which map.
#[derive(Copy, Clone, Debug, PartialEq, Eq, Structural, Hash)]
pub enum DataTaskToken {
    NpcMove(MapPosition),
    NpcDir(MapPosition),
    NpcDeath(MapPosition),
    NpcUnload(MapPosition),
    NpcAttack(MapPosition),
    NpcSpawn(MapPosition),
    PlayerMove(MapPosition),
    PlayerDir(MapPosition),
    PlayerDeath(MapPosition),
    PlayerUnload(MapPosition),
    PlayerAttack(MapPosition),
    PlayerSpawn(MapPosition),
    MapChat(MapPosition),
    ItemUnload(MapPosition),
    ItemLoad(MapPosition),
}

/// One entry of a batch.
#[derive(Clone, Debug, PartialEq, Eq)]
pub enum TaskData {
    NpcMove(Vec<u8>),
    NpcDir(Vec<u8>),
    NpcDeath(Vec<u8>),
    NpcUnload(u64),
    NpcAttack(u64),
    NpcSpawn(Vec<u8>),
    PlayerMove(Vec<u8>),
    PlayerDir(Vec<u8>),
    PlayerDeath(Vec<u8>),
    PlayerUnload(u64),
    PlayerAttack(u64),
    PlayerSpawn(Vec<u8>),
    MapChat(Vec<u8>),
    ItemUnload(u64),
    ItemLoad(Vec<u8>),
}

} // verus!
