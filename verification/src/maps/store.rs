use vstd::prelude::*;

use indexmap::IndexMap;
use std::collections::hash_map::RandomState;

use crate::identity::GlobalKey;
use crate::maps::mapitem::MapItem;
use crate::time_ext::MyInstant;

verus! {

/// The items lying on a map, in the order the map keeps them, each under the
/// wire value of its key.
pub uninterp spec fn item_entries(m: IndexMap<u64, MapItem, RandomState>) -> Seq<(u64, MapItem)>;

/// No two entries share a key.
pub open spec fn keys_distinct(s: Seq<(u64, MapItem)>) -> bool {
    forall|i: int, j: int| 0 <= i < j < s.len() ==> s[i].0 != s[j].0
}

/// Where `k` stands among the entries, if anywhere.
pub open spec fn entry_index(s: Seq<(u64, MapItem)>, k: u64) -> Option<int> {
    if exists|i: int| 0 <= i < s.len() && s[i].0 == k {
        Some(choose|i: int| 0 <= i < s.len() && s[i].0 == k)
    } else {
        None
    }
}

/// Entries after `IndexMap::swap_remove(k)`: the entry of `k`, if any, is
/// replaced by the last entry, which leaves the end.
pub open spec fn swap_removed(s: Seq<(u64, MapItem)>, k: u64) -> Seq<(u64, MapItem)> {
    match entry_index(s, k) {
        Some(i) => s.update(i, s.last()).drop_last(),
        None => s,
    }
}

/// Entries after `IndexMap::insert(k, v)`: an entry of `k` keeps its place
/// and takes `v`; otherwise the entry goes last.
pub open spec fn inserted(s: Seq<(u64, MapItem)>, k: u64, v: MapItem) -> Seq<(u64, MapItem)> {
    match entry_index(s, k) {
        Some(i) => s.update(i, (k, v)),
        None => s.push((k, v)),
    }
}

/// `IndexMap::default`: no entries.
#[verifier::external_body]
fn items_empty() -> (r: IndexMap<u64, MapItem, RandomState>)
    ensures
        item_entries(r) == Seq::<(u64, MapItem)>::empty(),
{
    IndexMap::default()
}

/// `IndexMap::len`.
#[verifier::external_body]
fn items_len(m: &IndexMap<u64, MapItem, RandomState>) -> (r: usize)
    ensures
        r == item_entries(*m).len(),
{
    m.len()
}

/// `IndexMap::get_index`: the entry at position `i`, if there is one.
#[verifier::external_body]
fn items_get_index(m: &IndexMap<u64, MapItem, RandomState>, i: usize) -> (r: Option<(u64, MapItem)>)
    ensures
        r == (if i < item_entries(*m).len() { Some(item_entries(*m)[i as int]) } else { None::<(u64, MapItem)> }),
{
    match m.get_index(i) {
        Some((k, v)) => Some((*k, *v)),
        None => None,
    }
}

/// `IndexMap::insert`; keys stay distinct.
#[verifier::external_body]
fn items_insert(m: &mut IndexMap<u64, MapItem, RandomState>, k: u64, v: MapItem)
    ensures
        item_entries(*final(m)) == inserted(item_entries(*old(m)), k, v),
        keys_distinct(item_entries(*old(m))) ==> keys_distinct(item_entries(*final(m))),
{
    m.insert(k, v);
}

/// `IndexMap::swap_remove`: the value of `k`, if it had one; keys stay
/// distinct.
#[verifier::external_body]
fn items_swap_remove(m: &mut IndexMap<u64, MapItem, RandomState>, k: u64) -> (r: Option<MapItem>)
    ensures
        r == (match entry_index(item_entries(*old(m)), k) {
            Some(i) => Some(item_entries(*old(m))[i].1),
            None => None::<MapItem>,
        }),
        item_entries(*final(m)) == swap_removed(item_entries(*old(m)), k),
        keys_distinct(item_entries(*old(m))) ==> keys_distinct(item_entries(*final(m))),
{
    m.swap_remove(&k)
}

/// The items lying on one map, by key.
pub struct MapActorStore {
    pub items: IndexMap<u64, MapItem, RandomState>,
}

/// A lying item whose despawn time has come by `tick`.
pub open spec fn despawn_due(item: MapItem, tick: MyInstant) -> bool {
    item.despawn matches Some(t) && t.0 <= tick.0
}

/// The entries left after removing each key of `keys` in turn.
pub open spec fn remove_all(s: Seq<(u64, MapItem)>, keys: Seq<u64>) -> Seq<(u64, MapItem)>
    decreases keys.len(),
{
    if keys.len() == 0 {
        s
    } else {
        remove_all(swap_removed(s, keys[0]), keys.drop_first())
    }
}

impl MapActorStore {
    /// The entries, in the store's order.
    pub open spec fn view(&self) -> Seq<(u64, MapItem)> {
        item_entries(self.items)
    }

    pub open spec fn well_formed(&self) -> bool {
        keys_distinct(self.view())
    }

    pub fn new() -> (r: MapActorStore)
        ensures
            r.view() == Seq::<(u64, MapItem)>::empty(),
            r.well_formed(),
    {
        MapActorStore { items: items_empty() }
    }

    /// Puts `item` under `key`, replacing what lay under it.
    pub fn insert_item(&mut self, key: GlobalKey, item: MapItem)
        requires
            old(self).well_formed(),
        ensures
            final(self).well_formed(),
            final(self).view() == inserted(old(self).view(), key.0, item),
    {
        items_insert(&mut self.items, key.0, item);
    }

    /// Takes away the item under `key`, if any.
    pub fn remove_item(&mut self, key: GlobalKey) -> (r: Option<MapItem>)
        requires
            old(self).well_formed(),
        ensures
            final(self).well_formed(),
            r == (match entry_index(old(self).view(), key.0) {
                Some(i) => Some(old(self).view()[i].1),
                None => None::<MapItem>,
            }),
            final(self).view() == swap_removed(old(self).view(), key.0),
    {
        items_swap_remove(&mut self.items, key.0)
    }

    /// Removes every item whose despawn time has come by `tick` and gives
    /// their keys, in the store's order.
    pub fn remove_despawned(&mut self, tick: MyInstant) -> (r: Vec<GlobalKey>)
        requires
            old(self).well_formed(),
        ensures
            final(self).well_formed(),
            r@.map_values(|k: GlobalKey| k.0) == old(self).view().filter(|e: (u64, MapItem)| despawn_due(e.1, tick)).map_values(
                |e: (u64, MapItem)| e.0,
            ),
            final(self).view() == remove_all(old(self).view(), r@.map_values(|k: GlobalKey| k.0)),
    {
        let ghost all = self.view();
        let n = items_len(&self.items);
        let mut to_remove: Vec<GlobalKey> = Vec::new();
        let mut i: usize = 0;
        while i < n
            invariant
                i <= n,
                n == all.len(),
                self.view() == all,
                to_remove@.map_values(|k: GlobalKey| k.0) == all.take(i as int).filter(|e: (u64, MapItem)| despawn_due(e.1, tick)).map_values(
                    |e: (u64, MapItem)| e.0,
                ),
            decreases n - i,
        {
            let ghost f = |e: (u64, MapItem)| despawn_due(e.1, tick);
            proof {
                assert(all.take(i as int + 1).drop_last() =~= all.take(i as int));
                assert(all.take(i as int + 1).last() == all[i as int]);
                reveal(Seq::filter);
                assert(all.take(i as int + 1).filter(f) == if f(all[i as int]) {
                    all.take(i as int).filter(f).push(all[i as int])
                } else {
                    all.take(i as int).filter(f)
                });
            }
            let entry = items_get_index(&self.items, i);
            let ghost before = to_remove@.map_values(|k: GlobalKey| k.0);
            match entry {
                Some((key, item)) => {
                    match item.despawn {
                        Some(t) => {
                            if t.0 <= tick.0 {
                                to_remove.push(GlobalKey(key));
                            }
                        },
                        None => {},
                    }
                },
                None => {},
            }
            proof {
                let g = |e: (u64, MapItem)| e.0;
                let old_f = all.take(i as int).filter(f);
                assert(old_f.push(all[i as int]).map_values(g) =~= old_f.map_values(g).push(all[i as int].0));
                assert(to_remove@.map_values(|k: GlobalKey| k.0) =~= all.take(i as int + 1).filter(f).map_values(g));
            }
            i += 1;
        }
        assert(all.take(n as int) =~= all);
        let ghost keys = to_remove@.map_values(|k: GlobalKey| k.0);
        assert(keys.skip(0) =~= keys);
        let mut j: usize = 0;
        while j < to_remove.len()
            invariant
                j <= to_remove@.len(),
                keys == to_remove@.map_values(|k: GlobalKey| k.0),
                keys_distinct(self.view()),
                remove_all(all, keys) == remove_all(self.view(), keys.skip(j as int)),
            decreases to_remove@.len() - j,
        {
            let ghost cur = self.view();
            items_swap_remove(&mut self.items, to_remove[j].0);
            proof {
                assert(keys.skip(j as int).drop_first() =~= keys.skip(j as int + 1));
                assert(keys.skip(j as int)[0] == to_remove@[j as int].0);
            }
            j += 1;
        }
        assert(keys.skip(to_remove@.len() as int) =~= Seq::<u64>::empty());
        to_remove
    }
}

} // verus!
