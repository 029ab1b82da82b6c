use vstd::prelude::*;

use crate::gametypes::position::Position;
use crate::identity::GlobalKey;
use crate::items::item::Item;
use crate::time_ext::MyInstant;

verus! {

/// An item lying in the world, with its timers and owner.
#[derive(Copy, Clone, Debug, PartialEq, Eq)]
pub struct MapItem {
    pub item: Item,
    pub despawn: Option<MyInstant>,
    pub ownertimer: Option<MyInstant>,
    pub ownerid: Option<GlobalKey>,
    pub pos: Position,
}

#[derive(Copy, Clone, Debug, PartialEq, Eq, Structural)]
pub struct DespawnTimer(pub MyInstant);

/// A world item with its despawn timer.
#[derive(Copy, Clone, Debug, PartialEq, Eq)]
pub struct MapItemEntity {
    pub general: MapItem,
    pub despawn_timer: DespawnTimer,
}

} // verus!
