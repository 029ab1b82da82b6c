use vstd::prelude::*;

use slotmap::{DefaultKey, KeyData, SlotMap};

use crate::gametypes::enums::WorldEntityType;
use crate::identity::GlobalKey;

verus! {

/// A `slotmap::SlotMap` from default keys to entity kinds.
#[verifier::external_body]
pub struct EntityTable {
    table: SlotMap<DefaultKey, WorldEntityType>,
}

/// The live entities of the table, each under the wire value
/// (`version * 2^32 + index`) of its key.
pub uninterp spec fn slot_entries(m: EntityTable) -> Map<u64, WorldEntityType>;

/// The key a wire value names once slotmap has read it back: the same index,
/// with the version made odd (`KeyData::from_ffi`).
pub open spec fn ffi_key(k: u64) -> u64 {
    if (k / 0x1_0000_0000) % 2 == 1 { k } else { (k + 0x1_0000_0000) as u64 }
}

/// No entries at all.
pub open spec fn no_entries() -> Map<u64, WorldEntityType> {
    Map::empty()
}

/// `SlotMap::new`: a map with no entries.
#[verifier::external_body]
fn slots_new() -> (r: EntityTable)
    ensures
        slot_entries(r) == no_entries(),
{
    EntityTable { table: SlotMap::new() }
}

/// `SlotMap::len`: the number of entries.
#[verifier::external_body]
fn slots_len(m: &EntityTable) -> (r: usize)
    ensures
        r == slot_entries(*m).dom().len(),
{
    m.table.len()
}

/// `SlotMap::insert`, read back with `KeyData::as_ffi`: the value goes under
/// a key that held nothing before, and nothing else changes. slotmap panics
/// when it already holds `u32::MAX - 1` entries, so that is left out.
#[verifier::external_body]
fn slots_insert(m: &mut EntityTable, v: WorldEntityType) -> (k: u64)
    requires
        slot_entries(*old(m)).dom().finite(),
        slot_entries(*old(m)).dom().len() < u32::MAX - 1,
    ensures
        !slot_entries(*old(m)).dom().contains(k),
        slot_entries(*final(m)) == slot_entries(*old(m)).insert(k, v),
        ffi_key(k) == k,
{
    let key: DefaultKey = m.table.insert(v);
    slotmap::Key::data(&key).as_ffi()
}

/// `SlotMap::remove` of the key `KeyData::from_ffi(k)`: its entry, if any,
/// goes and is handed back; nothing else changes.
#[verifier::external_body]
fn slots_remove(m: &mut EntityTable, k: u64) -> (r: Option<WorldEntityType>)
    ensures
        r == (if slot_entries(*old(m)).dom().contains(ffi_key(k)) { Some(slot_entries(*old(m))[ffi_key(k)]) } else { None }),
        slot_entries(*final(m)) == slot_entries(*old(m)).remove(ffi_key(k)),
{
    let key: DefaultKey = KeyData::from_ffi(k).into();
    m.table.remove(key)
}

/// `SlotMap::get` of the key `KeyData::from_ffi(k)`.
#[verifier::external_body]
fn slots_get(m: &EntityTable, k: u64) -> (r: Option<WorldEntityType>)
    ensures
        r == (if slot_entries(*m).dom().contains(ffi_key(k)) { Some(slot_entries(*m)[ffi_key(k)]) } else { None }),
{
    let key: DefaultKey = KeyData::from_ffi(k).into();
    m.table.get(key).copied()
}

/// The table that hands out world entity keys and remembers the kind of
/// entity each live key names.
pub struct EntitySlots {
    pub slots: EntityTable,
}

impl EntitySlots {
    /// The live keys and the kinds they name.
    pub open spec fn view(&self) -> Map<u64, WorldEntityType> {
        slot_entries(self.slots)
    }

    /// Finitely many keys are live.
    pub open spec fn well_formed(&self) -> bool {
        self.view().dom().finite()
    }

    /// What `key` names, while it is live.
    pub open spec fn lookup(&self, key: GlobalKey) -> Option<WorldEntityType> {
        if self.view().dom().contains(ffi_key(key.0)) { Some(self.view()[ffi_key(key.0)]) } else { None }
    }

    pub fn new() -> (r: EntitySlots)
        ensures
            r.view() == no_entries(),
            r.well_formed(),
    {
        EntitySlots { slots: slots_new() }
    }

    /// The number of live keys.
    pub fn len(&self) -> (r: usize)
        ensures
            r == self.view().dom().len(),
    {
        slots_len(&self.slots)
    }

    /// Whether `key` is live, and what it names.
    pub fn get(&self, key: GlobalKey) -> (r: Option<WorldEntityType>)
        ensures
            r == self.lookup(key),
    {
        slots_get(&self.slots, key.0)
    }

    /// Hands out a key for an entity of kind `kind`: a key that was not live
    /// before and names `kind` now; every other key names what it did.
    pub fn insert(&mut self, kind: WorldEntityType) -> (key: GlobalKey)
        requires
            old(self).well_formed(),
            old(self).view().dom().len() < u32::MAX - 1,
        ensures
            final(self).well_formed(),
            !old(self).view().dom().contains(key.0),
            ffi_key(key.0) == key.0,
            final(self).view() == old(self).view().insert(key.0, kind),
            final(self).lookup(key) == Some(kind),
    {
        GlobalKey(slots_insert(&mut self.slots, kind))
    }

    /// Frees `key`: gives back what it named, if it was live, and it names
    /// nothing afterwards; every other key names what it did.
    pub fn remove(&mut self, key: GlobalKey) -> (r: Option<WorldEntityType>)
        requires
            old(self).well_formed(),
        ensures
            final(self).well_formed(),
            r == old(self).lookup(key),
            final(self).view() == old(self).view().remove(ffi_key(key.0)),
            final(self).lookup(key) is None,
    {
        slots_remove(&mut self.slots, key.0)
    }

    /// A key for an entity whose spawn request is handed on, or `None` when
    /// the table is full. The key goes back when the hand-over fails
    /// (`remove`).
    pub fn try_insert(&mut self, kind: WorldEntityType) -> (r: Option<GlobalKey>)
        requires
            old(self).well_formed(),
        ensures
            final(self).well_formed(),
            match r {
                Some(key) => !old(self).view().dom().contains(key.0) && ffi_key(key.0) == key.0
                    && final(self).view() == old(self).view().insert(key.0, kind),
                None => old(self).view().dom().len() >= u32::MAX - 1 && final(self).view() == old(self).view(),
            },
    {
        if self.len() >= u32::MAX as usize - 1 {
            return None;
        }
        Some(self.insert(kind))
    }
}

/// A request to the key table.
#[derive(Copy, Clone, Debug)]
pub enum IdRequest {
    /// A key for a new entity of this kind, which the asker then spawns
    /// under it.
    Spawn(WorldEntityType),
    /// The entity under this key left the world.
    Remove(GlobalKey),
}

/// The key table's answer to a request.
#[derive(Copy, Clone, Debug)]
pub enum IdReply {
    /// The fresh key of the entity to spawn.
    Spawned(GlobalKey),
    /// The key is free now; what it named, if it was live.
    Removed(Option<WorldEntityType>),
}

impl EntitySlots {
    /// Serves one request: a spawn gets a key that was not live and names
    /// the entity's kind from now on; a removal frees the key. Every other
    /// key names what it did. A spawn into a full table is left out: slotmap
    /// panics there.
    pub fn handle_request(&mut self, req: IdRequest) -> (r: IdReply)
        requires
            old(self).well_formed(),
            req is Spawn ==> old(self).view().dom().len() < u32::MAX - 1,
        ensures
            final(self).well_formed(),
            match req {
                IdRequest::Spawn(kind) => r matches IdReply::Spawned(key)
                    && !old(self).view().dom().contains(key.0)
                    && ffi_key(key.0) == key.0
                    && final(self).view() == old(self).view().insert(key.0, kind),
                IdRequest::Remove(key) => r == IdReply::Removed(old(self).lookup(key))
                    && final(self).view() == old(self).view().remove(ffi_key(key.0)),
            },
    {
        match req {
            IdRequest::Spawn(kind) => IdReply::Spawned(self.insert(kind)),
            IdRequest::Remove(key) => IdReply::Removed(self.remove(key)),
        }
    }
}

/// A spawn request that could not be handed on gives its key back and
/// leaves the table as it was.
pub proof fn lemma_failed_spawn_restores(entries: Map<u64, WorldEntityType>, key: u64, kind: WorldEntityType)
    requires
        !entries.dom().contains(key),
        ffi_key(key) == key,
    ensures
        entries.insert(key, kind).remove(ffi_key(key)) == entries,
{
    assert(entries.insert(key, kind).remove(key) =~= entries);
}

} // verus!
