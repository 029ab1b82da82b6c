use vstd::prelude::*;

use crate::identity::GlobalKey;
use crate::items::item::{empty_item, Item};
use crate::time_ext::MyInstant;

verus! {

#[derive(Copy, Clone, Debug, PartialEq, Eq, Structural)]
pub struct PlayerItemTimer {
    pub itemtimer: MyInstant,
}

#[derive(Copy, Clone, Debug, PartialEq, Eq, Structural)]
pub struct PlayerMapTimer {
    pub mapitemtimer: MyInstant,
}

/// `n` empty stacks.
pub open spec fn empty_slots(n: nat) -> Seq<Item> {
    Seq::new(n, |i: int| empty_item())
}

fn new_slots(n: usize) -> (r: Vec<Item>)
    ensures
        r@ == empty_slots(n as nat),
{
    let mut v: Vec<Item> = Vec::new();
    let mut i: usize = 0;
    while i < n
        invariant
            i <= n,
            v@ == empty_slots(i as nat),
        decreases n - i,
    {
        v.push(Item::default());
        i = i + 1;
        assert(v@ =~= empty_slots(i as nat));
    }
    v
}

/// A player's bag.
#[derive(Clone, Debug, PartialEq, Eq)]
pub struct Inventory {
    pub items: Vec<Item>,
}

impl Inventory {
    /// An empty bag of 30 slots.
    pub fn new() -> (r: Inventory)
        ensures
            r.items@ == empty_slots(30),
    {
        Inventory { items: new_slots(30) }
    }
}

/// The items a player offers in a trade.
#[derive(Clone, Debug, PartialEq, Eq)]
pub struct TradeItem {
    pub items: Vec<Item>,
}

impl TradeItem {
    /// An empty offer of 30 slots.
    pub fn new() -> (r: TradeItem)
        ensures
            r.items@ == empty_slots(30),
    {
        TradeItem { items: new_slots(30) }
    }
}

/// The money a player offers in a trade.
#[derive(Copy, Clone, Debug, PartialEq, Eq, Structural)]
pub struct TradeMoney {
    pub vals: u64,
}

#[derive(Copy, Clone, Debug, PartialEq, Eq, Structural)]
pub enum TradeStatus {
    Nothing,
    Accepted,
    Submitted,
}

/// Whom a player asked to trade with, and until when the request blocks a new one.
#[derive(Copy, Clone, Debug, PartialEq, Eq, Structural)]
pub struct TradeRequestEntity {
    pub entity: Option<GlobalKey>,
    pub requesttimer: MyInstant,
}

/// A player's bank.
#[derive(Clone, Debug, PartialEq, Eq)]
pub struct PlayerStorage {
    pub items: Vec<Item>,
}

impl PlayerStorage {
    /// An empty bank of 70 slots.
    pub fn new() -> (r: PlayerStorage)
        ensures
            r.items@ == empty_slots(70),
    {
        PlayerStorage { items: new_slots(70) }
    }
}

/// What a player wears.
#[derive(Clone, Debug, PartialEq, Eq)]
pub struct Equipment {
    pub items: Vec<Item>,
}

impl Equipment {
    /// Nothing worn, in 5 slots.
    pub fn new() -> (r: Equipment)
        ensures
            r.items@ == empty_slots(5),
    {
        Equipment { items: new_slots(5) }
    }
}

#[derive(Copy, Clone, Debug, PartialEq, Eq, Structural)]
pub struct Sprite {
    pub id: u16,
}

#[derive(Copy, Clone, Debug, PartialEq, Eq, Structural)]
pub struct Money {
    pub vals: u64,
}

#[derive(Copy, Clone, Debug, PartialEq, Eq, Structural)]
pub struct PlayerConnectionTimer(pub MyInstant);

/// The reconnect codes a player holds: the newest one and, for a short
/// while after a reconnect, a few old ones. No code is held twice.
#[derive(Clone, Debug)]
pub struct ReloginCode {
    pub code: Vec<String>,
}

impl ReloginCode {
    /// The codes held, as character sequences.
    pub open spec fn codes(&self) -> Seq<Seq<char>> {
        self.code@.map_values(|c: String| c@)
    }

    pub open spec fn well_formed(&self) -> bool {
        self.codes().no_duplicates()
    }

    pub fn new() -> (r: ReloginCode)
        ensures
            r.codes() == Seq::<Seq<char>>::empty(),
            r.well_formed(),
    {
        let r = ReloginCode { code: Vec::new() };
        assert(r.codes() =~= Seq::<Seq<char>>::empty());
        r
    }

    pub fn is_empty(&self) -> (r: bool)
        ensures
            r == (self.codes().len() == 0),
    {
        self.code.len() == 0
    }

    /// Whether `code` is one of the codes held.
    pub fn contains(&self, code: &String) -> (r: bool)
        ensures
            r == self.codes().contains(code@),
    {
        let mut i: usize = 0;
        while i < self.code.len()
            invariant
                i <= self.code@.len(),
                forall|j: int| 0 <= j < i ==> self.codes()[j] != code@,
            decreases self.code@.len() - i,
        {
            if self.code[i] == *code {
                assert(self.codes()[i as int] == code@);
                return true;
            }
            i += 1;
        }
        false
    }

    /// The client confirmed `connection_code`: it becomes the only code
    /// held, and the others are handed back to be forgotten.
    pub fn confirm(&mut self, connection_code: String) -> (stale: Vec<String>)
        ensures
            final(self).codes() == seq![connection_code@],
            final(self).well_formed(),
            stale@.map_values(|c: String| c@) == old(self).codes().filter(|c: Seq<char>| c != connection_code@),
    {
        let ghost before = self.codes();
        let mut stale: Vec<String> = Vec::new();
        let mut i: usize = 0;
        while i < self.code.len()
            invariant
                i <= self.code@.len(),
                self.codes() == before,
                stale@.map_values(|c: String| c@) == before.take(i as int).filter(|c: Seq<char>| c != connection_code@),
            decreases self.code@.len() - i,
        {
            proof {
                assert(before.take(i as int + 1).drop_last() =~= before.take(i as int));
                reveal(Seq::filter);
            }
            if self.code[i] != connection_code {
                stale.push(self.code[i].clone());
            }
            assert(stale@.map_values(|c: String| c@) =~= before.take(i as int + 1).filter(|c: Seq<char>| c != connection_code@));
            i += 1;
        }
        assert(before.take(self.code@.len() as int) =~= before);
        self.code = vec![connection_code];
        assert(self.codes() =~= seq![connection_code@]);
        stale
    }
}

#[derive(Clone, Debug, PartialEq, Eq)]
pub struct LoginHandShake {
    pub handshake: String,
}

/// General player progress and flags.
#[derive(Copy, Clone, Debug, PartialEq, Eq, Structural)]
pub struct Player {
    pub levelexp: u64,
    pub useditemid: u32,
    pub resetcount: i16,
    pub pvpon: bool,
    pub pk: bool,
    pub movesavecount: u16,
}

#[derive(Copy, Clone, Debug, PartialEq, Eq, Structural)]
pub struct PlayerInput {
    pub move_dir: Option<u8>,
    pub stop_move: bool,
}

/// What a player is busy with; a trade names the partner.
#[derive(Copy, Clone, Debug, PartialEq, Eq, Structural)]
pub enum IsUsingType {
    Idle,
    Bank,
    Fishing(i64),
    Crafting(i64),
    Trading(GlobalKey),
    Store(i64),
    Other(i64),
}

impl IsUsingType {
    pub fn inuse(self) -> (r: bool)
        ensures
            r == !(self is Idle),
    {
        !matches!(self, IsUsingType::Idle)
    }

    pub fn is_bank(self) -> (r: bool)
        ensures
            r == (self is Bank),
    {
        matches!(self, IsUsingType::Bank)
    }

    pub fn is_fishing(self) -> (r: bool)
        ensures
            r == (self is Fishing),
    {
        matches!(self, IsUsingType::Fishing(_))
    }

    pub fn is_crafting(self) -> (r: bool)
        ensures
            r == (self is Crafting),
    {
        matches!(self, IsUsingType::Crafting(_))
    }

    pub fn is_trading(self) -> (r: bool)
        ensures
            r == (self is Trading),
    {
        matches!(self, IsUsingType::Trading(_))
    }

    pub fn is_instore(self) -> (r: bool)
        ensures
            r == (self is Store),
    {
        matches!(self, IsUsingType::Store(_))
    }

    pub fn is_other(self) -> (r: bool)
        ensures
            r == (self is Other),
    {
        matches!(self, IsUsingType::Other(_))
    }
}

#[derive(Copy, Clone, Debug, PartialEq, Eq, Structural)]
pub enum UserAccess {
    Nothing,
    Monitor,
    Admin,
}

} // verus!
