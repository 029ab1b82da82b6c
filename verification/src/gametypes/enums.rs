use vstd::prelude::*;

use crate::gametypes::map_position::MapPosition;
use crate::gametypes::position::Position;
use crate::identity::GlobalKey;

verus! {

/// Facing and movement direction, numbered as on the wire.
#[derive(Copy, Clone, Debug, PartialEq, Eq, Structural)]
pub enum Dir {
    Up,
    Right,
    Down,
    Left,
}

impl Dir {
    /// The direction's wire number: 0 up, 1 right, 2 down, 3 left.
    pub fn as_u8(&self) -> (r: u8)
        ensures
            r == (match *self { Dir::Up => 0u8, Dir::Right => 1u8, Dir::Down => 2u8, Dir::Left => 3u8 }),
    {
        match self {
            Dir::Up => 0,
            Dir::Right => 1,
            Dir::Down => 2,
            Dir::Left => 3,
        }
    }
}

/// The column step of a direction on the world grid: right is +1, left -1.
pub open spec fn dir_step_x(d: Dir) -> int {
    match d {
        Dir::Right => 1,
        Dir::Left => -1,
        _ => 0,
    }
}

/// The row step of a direction on the world grid: up is +1, down -1 (as the
/// maps above and below a map lie, see `MapPosDir`).
pub open spec fn dir_step_y(d: Dir) -> int {
    match d {
        Dir::Up => 1,
        Dir::Down => -1,
        _ => 0,
    }
}

#[derive(Copy, Clone, Debug, PartialEq, Eq, Structural)]
pub enum TradeStatus {
    Nothing,
    Accepted,
    Submitted,
}

#[derive(Copy, Clone, Debug, PartialEq, Eq, Structural)]
pub enum UserAccess {
    Nothing,
    Monitor,
    Admin,
}

#[derive(Copy, Clone, Debug, PartialEq, Eq, Structural)]
pub enum ChatChannel {
    Local,
    Global,
    Trade,
    Party,
    Guild,
    Whisper,
}

/// How an NPC reacts to others.
#[derive(Copy, Clone, Debug, PartialEq, Eq, Structural)]
pub enum AIBehavior {
    Friendly,
    Agressive,
    Reactive,
    HelpReactive,
    Healer,
    AgressiveHealer,
    ReactiveHealer,
}

#[derive(Copy, Clone, Debug, PartialEq, Eq, Structural)]
pub enum NpcCastType {
    SelfOnly,
    Enemy,
    Friend,
    Ground,
}

impl AIBehavior {
    /// Attacks on sight.
    pub fn is_agressive(&self) -> (r: bool)
        ensures
            r == (*self is Agressive || *self is AgressiveHealer),
    {
        matches!(self, AIBehavior::Agressive | AIBehavior::AgressiveHealer)
    }

    /// Attacks when attacked.
    pub fn is_reactive(&self) -> (r: bool)
        ensures
            r == (*self is Reactive || *self is HelpReactive || *self is ReactiveHealer),
    {
        matches!(self, AIBehavior::Reactive | AIBehavior::HelpReactive | AIBehavior::ReactiveHealer)
    }

    /// Heals other NPCs.
    pub fn is_healer(&self) -> (r: bool)
        ensures
            r == (*self is Healer || *self is AgressiveHealer || *self is ReactiveHealer),
    {
        matches!(self, AIBehavior::Healer | AIBehavior::AgressiveHealer | AIBehavior::ReactiveHealer)
    }

    /// Never attacks nor is attacked.
    pub fn is_friendly(&self) -> (r: bool)
        ensures
            r == (*self is Friendly),
    {
        matches!(self, AIBehavior::Friendly)
    }
}

/// Kind of an entity in the world.
#[derive(Copy, Clone, Debug, PartialEq, Eq, Structural)]
pub enum WorldEntityType {
    Nothing,
    Player,
    Npc,
    MapItem,
}

/// What an entity targets, with the target's last known position.
#[derive(Copy, Clone, Debug, PartialEq, Eq, Structural)]
pub enum Target {
    Nothing,
    Player { key: GlobalKey, uid: i64, position: Position },
    Npc { key: GlobalKey, position: Position },
    MapItem { key: GlobalKey, position: Position },
    Tile(Position),
}

impl Default for Target {
    /// No target.
    fn default() -> (r: Target)
        ensures
            r == Target::Nothing,
    {
        Target::Nothing
    }
}

/// The position a target carries, if it carries one.
pub open spec fn target_position(t: Target) -> Option<Position> {
    match t {
        Target::Player { position, .. } => Some(position),
        Target::Npc { position, .. } => Some(position),
        Target::MapItem { position, .. } => Some(position),
        Target::Tile(position) => Some(position),
        Target::Nothing => None,
    }
}

/// The target with its position replaced (a target without one is unchanged).
pub open spec fn target_with_position(t: Target, p: Position) -> Target {
    match t {
        Target::Player { key, uid, .. } => Target::Player { key, uid, position: p },
        Target::Npc { key, .. } => Target::Npc { key, position: p },
        Target::MapItem { key, .. } => Target::MapItem { key, position: p },
        Target::Tile(_) => Target::Tile(p),
        Target::Nothing => Target::Nothing,
    }
}

impl Target {
    /// The targeted entity's key; the null key for a map tile or no target.
    pub fn get_id(&self) -> (r: GlobalKey)
        ensures
            r == (match *self {
                Target::Player { key, .. } => key,
                Target::Npc { key, .. } => key,
                Target::MapItem { key, .. } => key,
                _ => GlobalKey(crate::identity::null_key_value()),
            }),
    {
        match self {
            Target::Player { key, .. } | Target::Npc { key, .. } | Target::MapItem { key, .. } => *key,
            _ => GlobalKey::null(),
        }
    }

    pub fn get_pos(&self) -> (r: Option<Position>)
        ensures
            r == target_position(*self),
    {
        match self {
            Target::Player { position, .. } => Some(*position),
            Target::Npc { position, .. } => Some(*position),
            Target::MapItem { position, .. } => Some(*position),
            Target::Tile(position) => Some(*position),
            Target::Nothing => None,
        }
    }

    pub fn update_pos(&mut self, new_position: Position)
        ensures
            *final(self) == target_with_position(*old(self), new_position),
    {
        match self {
            Target::Player { position, .. } => *position = new_position,
            Target::Npc { position, .. } => *position = new_position,
            Target::MapItem { position, .. } => *position = new_position,
            Target::Tile(position) => *position = new_position,
            Target::Nothing => {},
        }
    }

    pub fn get_map_pos(&self) -> (r: Option<MapPosition>)
        ensures
            r == (match target_position(*self) { Some(p) => Some(p.map), None => None }),
    {
        match self {
            Target::Player { position, .. } => Some(position.map),
            Target::Npc { position, .. } => Some(position.map),
            Target::MapItem { position, .. } => Some(position.map),
            Target::Tile(position) => Some(position.map),
            Target::Nothing => None,
        }
    }

    pub fn is_player(&self) -> (r: bool)
        ensures
            r == (*self is Player),
    {
        matches!(self, Target::Player { .. })
    }

    pub fn is_map(&self) -> (r: bool)
        ensures
            r == (*self is Tile),
    {
        matches!(self, Target::Tile(_))
    }

    pub fn is_npc(&self) -> (r: bool)
        ensures
            r == (*self is Npc),
    {
        matches!(self, Target::Npc { .. })
    }

    pub fn is_mapitem(&self) -> (r: bool)
        ensures
            r == (*self is MapItem),
    {
        matches!(self, Target::MapItem { .. })
    }

    pub fn is_none(&self) -> (r: bool)
        ensures
            r == (*self is Nothing),
    {
        matches!(self, Target::Nothing)
    }

    pub fn player(key: GlobalKey, uid: i64, position: Position) -> (r: Target)
        ensures
            r == (Target::Player { key, uid, position }),
    {
        Target::Player { key, uid, position }
    }

    pub fn npc(key: GlobalKey, position: Position) -> (r: Target)
        ensures
            r == (Target::Npc { key, position }),
    {
        Target::Npc { key, position }
    }

    pub fn map_item(key: GlobalKey, position: Position) -> (r: Target)
        ensures
            r == (Target::MapItem { key, position }),
    {
        Target::MapItem { key, position }
    }
}

#[derive(Copy, Clone, Debug, PartialEq, Eq, Structural)]
pub enum EntityType {
    Nothing,
    Player(GlobalKey),
    Npc(GlobalKey),
}

#[derive(Copy, Clone, Debug, PartialEq, Eq, Structural)]
pub enum ItemTypes {
    Nothing,
    Weapon,
    Accessory,
    Cosmetic,
    Helmet,
    Armor,
    Trouser,
    Boots,
    Consume,
    Tool,
    Blueprint,
    Book,
    Questitem,
    Trap,
    Heavyobject,
    Key,
    Count,
}

#[derive(Copy, Clone, Debug, PartialEq, Eq, Structural)]
pub enum EquipmentType {
    Weapon,
    Helmet,
    Chest,
    Pants,
    Accessory,
    Count,
}

#[derive(Copy, Clone, Debug, PartialEq, Eq, Structural)]
pub enum VitalTypes {
    Hp,
    Mp,
    Sp,
    Count,
}

#[derive(Copy, Clone, Debug, PartialEq, Eq, Structural)]
pub enum Weather {
    Nothing,
    Rain,
    Snow,
    Sunny,
    Storm,
    Blizzard,
    Heat,
    Hail,
    SandStorm,
    Windy,
}

#[derive(Copy, Clone, Debug, PartialEq, Eq, Structural)]
pub enum MapLayers {
    Ground,
    Mask,
    Mask2,
    Fringe,
    Fringe2,
    Anim1,
    Anim2,
    Anim3,
    Anim4,
    Anim5,
    Count,
}

#[derive(Copy, Clone, Debug, PartialEq, Eq, Structural)]
pub enum ToolType {
    Nothing,
    Axe,
    Pick,
    Rod,
    Hoe,
    Scythe,
    Shovel,
}

#[derive(Copy, Clone, Debug, PartialEq, Eq, Structural)]
pub enum OnlineType {
    Nothing,
    Accepted,
    Online,
}

#[derive(Copy, Clone, Debug, PartialEq, Eq, Structural)]
pub enum NpcMode {
    Nothing,
    Normal,
    Pet,
    Summon,
    Boss,
}

#[derive(Copy, Clone, Debug, PartialEq, Eq, Structural)]
pub enum LogType {
    Login,
    Logout,
    Item,
    Warning,
    Error,
}

/// What a player is busy with.
#[derive(Copy, Clone, Debug, PartialEq, Eq, Structural)]
pub enum IsUsingType {
    Idle,
    Bank,
    Fishing(i64),
    Crafting(i64),
    Trading(Target),
    Store(i64),
    Other(i64),
}

#[derive(Copy, Clone, Debug, PartialEq, Eq, Structural)]
pub enum SlotSpace {
    NoSpace(u16),
    Completed,
}

impl IsUsingType {
    pub fn inuse(self) -> (r: bool)
        ensures
            r == !(self is Idle),
    {
        !matches!(self, IsUsingType::Idle)
    }

    pub fn is_bank(self) -> (r: bool)
        ensures
            r == (self is Bank),
    {
        matches!(self, IsUsingType::Bank)
    }

    pub fn is_fishing(self) -> (r: bool)
        ensures
            r == (self is Fishing),
    {
        matches!(self, IsUsingType::Fishing(_))
    }

    pub fn is_crafting(self) -> (r: bool)
        ensures
            r == (self is Crafting),
    {
        matches!(self, IsUsingType::Crafting(_))
    }

    pub fn is_trading(self) -> (r: bool)
        ensures
            r == (self is Trading),
    {
        matches!(self, IsUsingType::Trading(_))
    }

    pub fn is_instore(self) -> (r: bool)
        ensures
            r == (self is Store),
    {
        matches!(self, IsUsingType::Store(_))
    }

    pub fn is_other(self) -> (r: bool)
        ensures
            r == (self is Other),
    {
        matches!(self, IsUsingType::Other(_))
    }
}

/// Life state of an entity.
#[derive(Copy, Clone, Debug, PartialEq, Eq, Structural)]
pub enum Death {
    Alive,
    Spirit,
    Dead,
    Spawning,
}

impl Death {
    /// Anything but alive counts as dead.
    pub fn is_dead(self) -> (r: bool)
        ensures
            r == !(self is Alive),
    {
        !matches!(self, Death::Alive)
    }

    pub fn is_spirit(self) -> (r: bool)
        ensures
            r == (self is Spirit),
    {
        matches!(self, Death::Spirit)
    }

    pub fn is_alive(self) -> (r: bool)
        ensures
            r == (self is Alive),
    {
        matches!(self, Death::Alive)
    }

    pub fn is_spawning(self) -> (r: bool)
        ensures
            r == (self is Spawning),
    {
        matches!(self, Death::Spawning)
    }
}

#[derive(Copy, Clone, Debug, PartialEq, Eq, Structural)]
pub enum FtlType {
    Message,
    Error,
    Item,
    Quest,
    Level,
    Money,
}

/// A map together with the side of a centre map it lies on.
#[derive(Copy, Clone, Debug, PartialEq, Eq, Structural)]
pub enum MapPos {
    Outside,
    UpLeft(MapPosition),
    Up(MapPosition),
    UpRight(MapPosition),
    Left(MapPosition),
    Center(MapPosition),
    Right(MapPosition),
    DownLeft(MapPosition),
    Down(MapPosition),
    DownRight(MapPosition),
}

/// The map a `MapPos` carries, if any.
pub open spec fn map_pos_value(p: MapPos) -> Option<MapPosition> {
    match p {
        MapPos::UpLeft(x) => Some(x),
        MapPos::Up(x) => Some(x),
        MapPos::UpRight(x) => Some(x),
        MapPos::Left(x) => Some(x),
        MapPos::Center(x) => Some(x),
        MapPos::Right(x) => Some(x),
        MapPos::DownLeft(x) => Some(x),
        MapPos::Down(x) => Some(x),
        MapPos::DownRight(x) => Some(x),
        MapPos::Outside => None,
    }
}

/// The side a `MapPos` names.
pub open spec fn map_pos_dir(p: MapPos) -> MapPosDir {
    match p {
        MapPos::UpLeft(_) => MapPosDir::UpLeft,
        MapPos::Up(_) => MapPosDir::Up,
        MapPos::UpRight(_) => MapPosDir::UpRight,
        MapPos::Left(_) => MapPosDir::Left,
        MapPos::Center(_) => MapPosDir::Center,
        MapPos::Right(_) => MapPosDir::Right,
        MapPos::DownLeft(_) => MapPosDir::DownLeft,
        MapPos::Down(_) => MapPosDir::Down,
        MapPos::DownRight(_) => MapPosDir::DownRight,
        MapPos::Outside => MapPosDir::Outside,
    }
}

impl MapPos {
    /// Whether this names the map `position`.
    pub fn contains(self, position: MapPosition) -> (r: bool)
        ensures
            r == (map_pos_value(self) == Some(position)),
    {
        match self {
            MapPos::UpLeft(x) | MapPos::Up(x) | MapPos::UpRight(x) | MapPos::Left(x)
            | MapPos::Center(x) | MapPos::Right(x) | MapPos::DownLeft(x) | MapPos::Down(x)
            | MapPos::DownRight(x) => x == position,
            MapPos::Outside => false,
        }
    }

    pub fn get(self) -> (r: Option<MapPosition>)
        ensures
            r == map_pos_value(self),
    {
        match self {
            MapPos::UpLeft(x) | MapPos::Up(x) | MapPos::UpRight(x) | MapPos::Left(x)
            | MapPos::Center(x) | MapPos::Right(x) | MapPos::DownLeft(x) | MapPos::Down(x)
            | MapPos::DownRight(x) => Some(x),
            MapPos::Outside => None,
        }
    }

    /// The side this names, without the map.
    pub fn dir(&self) -> (r: MapPosDir)
        ensures
            r == map_pos_dir(*self),
    {
        match self {
            MapPos::UpLeft(_) => MapPosDir::UpLeft,
            MapPos::Up(_) => MapPosDir::Up,
            MapPos::UpRight(_) => MapPosDir::UpRight,
            MapPos::Left(_) => MapPosDir::Left,
            MapPos::Center(_) => MapPosDir::Center,
            MapPos::Right(_) => MapPosDir::Right,
            MapPos::DownLeft(_) => MapPosDir::DownLeft,
            MapPos::Down(_) => MapPosDir::Down,
            MapPos::DownRight(_) => MapPosDir::DownRight,
            MapPos::Outside => MapPosDir::Outside,
        }
    }
}

/// A side of a centre map.
#[derive(Copy, Clone, Debug, PartialEq, Eq, Structural)]
pub enum MapPosDir {
    Outside,
    UpLeft,
    Up,
    UpRight,
    Left,
    Center,
    Right,
    DownLeft,
    Down,
    DownRight,
}

impl From<MapPos> for MapPosDir {
    fn from(position: MapPos) -> (r: MapPosDir) {
        position.dir()
    }
}

impl vstd::std_specs::convert::FromSpecImpl<MapPos> for MapPosDir {
    open spec fn obeys_from_spec() -> bool {
        true
    }

    open spec fn from_spec(v: MapPos) -> MapPosDir {
        map_pos_dir(v)
    }
}

#[derive(Copy, Clone, Debug, PartialEq, Eq, Structural)]
pub enum MessageChannel {
    Local,
    Global,
    Trade,
    Party,
    Private,
    Guild,
    Help,
    Quest,
    Npc,
}

/// Administrative commands a client may send.
#[derive(Clone, Debug, PartialEq, Eq)]
pub enum Command {
    KickPlayer,
    KickPlayerByName(String),
    WarpTo(Position),
    SpawnNpc(i32, Position),
    Trade,
}

#[derive(Copy, Clone, Debug, PartialEq, Eq, Structural)]
pub enum ItemLeftOver {
    Nothing,
    Left(u16),
    Full,
}

} // verus!
