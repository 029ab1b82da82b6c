use vstd::prelude::*;

verus! {

/// What a tile of a stored map does.
#[derive(Clone, Debug, PartialEq, Eq)]
pub enum MapAttribute {
    Walkable,
    Blocked,
    Warp(i32, i32, u64, u32, u32),
    Sign(String),
    Count,
}

/// The tile ids of one layer.
#[derive(Clone, Debug)]
pub struct Tile {
    pub id: Vec<u32>,
}

/// A map as it is stored: its place, nine tile layers, the attribute of
/// each of its 1024 tiles, the NPC spawns and spawn zones, and its weather.
#[derive(Clone, Debug)]
pub struct MapData {
    pub x: i32,
    pub y: i32,
    pub group: u64,
    pub tile: Vec<Tile>,
    pub attribute: Vec<MapAttribute>,
    pub zonespawns: [Vec<(u16, u16)>; 5],
    pub zones: [(u64, [Option<u64>; 5]); 5],
    pub fixed_weather: u8,
}

/// 1024 zero tile ids.
fn blank_layer() -> (r: Tile)
    ensures
        r.id@ == Seq::new(1024, |i: int| 0u32),
{
    let mut id: Vec<u32> = Vec::new();
    while id.len() < 1024
        invariant
            id@ == Seq::new(id@.len(), |i: int| 0u32),
            id@.len() <= 1024,
        decreases 1024 - id@.len(),
    {
        id.push(0);
        assert(id@ =~= Seq::new(id@.len(), |i: int| 0u32));
    }
    Tile { id }
}

impl MapData {
    /// A blank map at the origin of group 0: nine layers of tile 0, every
    /// tile walkable, no spawns, no zones, no fixed weather.
    pub fn default() -> (r: MapData)
        ensures
            r.x == 0 && r.y == 0 && r.group == 0 && r.fixed_weather == 0,
            r.tile@.len() == 9,
            forall|l: int| 0 <= l < 9 ==> (#[trigger] r.tile@[l]).id@ == Seq::new(1024, |i: int| 0u32),
            r.attribute@ == Seq::new(1024, |i: int| MapAttribute::Walkable),
            forall|z: int| 0 <= z < 5 ==> (#[trigger] r.zonespawns[z])@.len() == 0,
            forall|z: int| 0 <= z < 5 ==> (#[trigger] r.zones[z]).0 == 0
                && forall|k: int| 0 <= k < 5 ==> (#[trigger] r.zones[z].1[k]) is None,
    {
        let mut tile: Vec<Tile> = Vec::new();
        while tile.len() < 9
            invariant
                tile@.len() <= 9,
                forall|l: int| 0 <= l < tile@.len() ==> (#[trigger] tile@[l]).id@ == Seq::new(1024, |i: int| 0u32),
            decreases 9 - tile@.len(),
        {
            tile.push(blank_layer());
        }
        let mut attribute: Vec<MapAttribute> = Vec::new();
        while attribute.len() < 1024
            invariant
                attribute@ == Seq::new(attribute@.len(), |i: int| MapAttribute::Walkable),
                attribute@.len() <= 1024,
            decreases 1024 - attribute@.len(),
        {
            attribute.push(MapAttribute::Walkable);
            assert(attribute@ =~= Seq::new(attribute@.len(), |i: int| MapAttribute::Walkable));
        }
        let zonespawns: [Vec<(u16, u16)>; 5] = [Vec::new(), Vec::new(), Vec::new(), Vec::new(), Vec::new()];
        let zone: (u64, [Option<u64>; 5]) = (0, [None, None, None, None, None]);
        let zones: [(u64, [Option<u64>; 5]); 5] = [zone, zone, zone, zone, zone];
        MapData { x: 0, y: 0, group: 0, tile, attribute, zonespawns, zones, fixed_weather: 0 }
    }
}

} // verus!
