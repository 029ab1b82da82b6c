use vstd::prelude::*;

use crate::gametypes::map_position::MapPosition;

verus! {

/// Entities still to be loaded for a player who switched maps.
#[derive(Clone, Debug, PartialEq, Eq)]
pub struct MapSwitchTask {
    pub ownerid: usize,
    pub mapid: MapPosition,
    pub currentids: Vec<u64>,
}

impl MapSwitchTask {
    pub fn new(ownerid: usize, mapid: MapPosition) -> (r: MapSwitchTask)
        ensures
            r.ownerid == ownerid,
            r.mapid == mapid,
            r.currentids@.len() == 0,
    {
        MapSwitchTask { ownerid, mapid, currentids: Vec::new() }
    }
}

/// Loading tasks by entity kind.
#[derive(Clone, Debug, PartialEq, Eq)]
pub enum MapSwitchTasks {
    Npc(MapSwitchTask),
    Player(MapSwitchTask),
    Items(MapSwitchTask),
}

fn contains_id(ids: &Vec<u64>, id: u64) -> (r: bool)
    ensures
        r == ids@.contains(id),
{
    let mut i: usize = 0;
    while i < ids.len()
        invariant
            i <= ids@.len(),
            forall|j: int| 0 <= j < i ==> ids@[j] != id,
        decreases ids@.len() - i,
    {
        if ids[i] == id {
            return true;
        }
        i = i + 1;
    }
    false
}

/// The ids of `from` that do not occur in `not_in`, in order.
pub open spec fn spec_missing_from(from: Seq<u64>, not_in: Seq<u64>) -> Seq<u64> {
    from.filter(|id: u64| !not_in.contains(id))
}

fn missing_from(from: &Vec<u64>, not_in: &Vec<u64>) -> (r: Vec<u64>)
    ensures
        r@ == spec_missing_from(from@, not_in@),
{
    let mut out: Vec<u64> = Vec::new();
    let mut i: usize = 0;
    while i < from.len()
        invariant
            i <= from@.len(),
            out@ == from@.subrange(0, i as int).filter(|id: u64| !not_in@.contains(id)),
        decreases from@.len() - i,
    {
        let id = from[i];
        assert(from@.subrange(0, i + 1).drop_last() == from@.subrange(0, i as int));
        reveal_with_fuel(Seq::<_>::filter, 1);
        if !contains_id(not_in, id) {
            out.push(id);
        }
        i = i + 1;
    }
    assert(from@.subrange(0, from@.len() as int) == from@);
    out
}

/// The ids seen on each of a list of maps, concatenated in map order.
pub open spec fn spec_all_ids(lists: Seq<Vec<u64>>) -> Seq<u64>
    decreases lists.len(),
{
    if lists.len() == 0 {
        seq![]
    } else {
        spec_all_ids(lists.drop_last()) + lists.last()@
    }
}

/// Concatenates the id lists of several maps.
pub fn collect_ids(lists: &Vec<Vec<u64>>) -> (r: Vec<u64>)
    ensures
        r@ == spec_all_ids(lists@),
{
    let mut out: Vec<u64> = Vec::new();
    let mut i: usize = 0;
    while i < lists.len()
        invariant
            i <= lists@.len(),
            out@ == spec_all_ids(lists@.subrange(0, i as int)),
        decreases lists@.len() - i,
    {
        assert(lists@.subrange(0, i + 1).drop_last() == lists@.subrange(0, i as int));
        let mut j: usize = 0;
        let ghost before = out@;
        while j < lists[i].len()
            invariant
                i < lists@.len(),
                j <= lists@[i as int]@.len(),
                out@ == before + lists@[i as int]@.subrange(0, j as int),
            decreases lists@[i as int]@.len() - j,
        {
            out.push(lists[i][j]);
            j = j + 1;
            assert(out@ =~= before + lists@[i as int]@.subrange(0, j as int));
        }
        assert(lists@[i as int]@.subrange(0, j as int) == lists@[i as int]@);
        i = i + 1;
    }
    assert(lists@.subrange(0, lists@.len() as int) == lists@);
    out
}

/// What a map switch changes for one entity kind: the ids seen now but not
/// before, to load, in the order seen; and the ids seen before but not now, to
/// remove, in the order seen before.
pub fn plan_id_switch(old_ids: &Vec<u64>, new_ids: &Vec<u64>) -> (r: (Vec<u64>, Vec<u64>))
    ensures
        r.0@ == spec_missing_from(new_ids@, old_ids@),
        r.1@ == spec_missing_from(old_ids@, new_ids@),
        forall|id: u64| #[trigger] r.0@.contains(id) <==> new_ids@.contains(id) && !old_ids@.contains(id),
        forall|id: u64| #[trigger] r.1@.contains(id) <==> old_ids@.contains(id) && !new_ids@.contains(id),
{
    proof {
        assert forall|id: u64| #[trigger] spec_missing_from(new_ids@, old_ids@).contains(id)
            <==> new_ids@.contains(id) && !old_ids@.contains(id) by {
            lemma_switch_exact(old_ids@, new_ids@, id);
        }
        assert forall|id: u64| #[trigger] spec_missing_from(old_ids@, new_ids@).contains(id)
            <==> old_ids@.contains(id) && !new_ids@.contains(id) by {
            lemma_switch_exact(old_ids@, new_ids@, id);
        }
    }
    (missing_from(new_ids, old_ids), missing_from(old_ids, new_ids))
}

/// The ids of the maps of a list that exist, concatenated in list order; a
/// map that does not exist (`None`) gives none.
pub open spec fn spec_known_ids(lists: Seq<Option<Vec<u64>>>) -> Seq<u64>
    decreases lists.len(),
{
    if lists.len() == 0 {
        seq![]
    } else {
        spec_known_ids(lists.drop_last()) + match lists.last() {
            Some(ids) => ids@,
            None => seq![],
        }
    }
}

/// The ids a player sees after switching maps: those of the new map first,
/// then those of the maps around it; none when the new map does not exist.
pub open spec fn spec_seen_after(current: Option<Vec<u64>>, around: Seq<Option<Vec<u64>>>) -> Seq<u64> {
    match current {
        Some(ids) => ids@ + spec_known_ids(around),
        None => seq![],
    }
}

fn append_ids(out: &mut Vec<u64>, ids: &Vec<u64>)
    ensures
        final(out)@ == old(out)@ + ids@,
{
    let ghost before = out@;
    let mut j: usize = 0;
    while j < ids.len()
        invariant
            j <= ids@.len(),
            out@ == before + ids@.subrange(0, j as int),
        decreases ids@.len() - j,
    {
        out.push(ids[j]);
        j = j + 1;
        assert(out@ =~= before + ids@.subrange(0, j as int));
    }
    assert(ids@.subrange(0, ids@.len() as int) =~= ids@);
}

/// Concatenates the id lists of the maps that exist.
pub fn known_ids(lists: &Vec<Option<Vec<u64>>>) -> (r: Vec<u64>)
    ensures
        r@ == spec_known_ids(lists@),
{
    let mut out: Vec<u64> = Vec::new();
    let mut i: usize = 0;
    while i < lists.len()
        invariant
            i <= lists@.len(),
            out@ == spec_known_ids(lists@.subrange(0, i as int)),
        decreases lists@.len() - i,
    {
        assert(lists@.subrange(0, i + 1).drop_last() =~= lists@.subrange(0, i as int));
        match &lists[i] {
            Some(ids) => append_ids(&mut out, ids),
            None => {
                assert(out@ + seq![] =~= out@);
            },
        }
        i = i + 1;
    }
    assert(lists@.subrange(0, lists@.len() as int) =~= lists@);
    out
}

/// One entity kind's lists for a map switch: the ids of the maps around the
/// old map (`old_maps`, as `get_surrounding` lists them; `None` for a map that
/// does not exist), of the new map (`current`) and of the other maps around
/// it (`around`). Gives the ids to load, those newly seen, the new map's
/// first; and the ids to remove, those no longer seen, in the order seen
/// before.
pub fn plan_map_switch(
    old_maps: &Vec<Option<Vec<u64>>>,
    current: &Option<Vec<u64>>,
    around: &Vec<Option<Vec<u64>>>,
) -> (r: (Vec<u64>, Vec<u64>))
    ensures
        r.0@ == spec_missing_from(spec_seen_after(*current, around@), spec_known_ids(old_maps@)),
        r.1@ == spec_missing_from(spec_known_ids(old_maps@), spec_seen_after(*current, around@)),
        forall|id: u64| #[trigger] r.0@.contains(id)
            <==> spec_seen_after(*current, around@).contains(id) && !spec_known_ids(old_maps@).contains(id),
        forall|id: u64| #[trigger] r.1@.contains(id)
            <==> spec_known_ids(old_maps@).contains(id) && !spec_seen_after(*current, around@).contains(id),
{
    let old_ids = known_ids(old_maps);
    let mut new_ids: Vec<u64> = Vec::new();
    match current {
        Some(ids) => {
            append_ids(&mut new_ids, ids);
            let rest = known_ids(around);
            append_ids(&mut new_ids, &rest);
        },
        None => {},
    }
    plan_id_switch(&old_ids, &new_ids)
}

/// The three loading tasks of a map switch, in the order they go into the
/// world's task store: players, NPCs, items; each owned by `ownerid` and for
/// the map switched to, with the ids still to load.
pub open spec fn spec_switch_tasks(
    ownerid: usize,
    mapid: MapPosition,
    players: Seq<u64>,
    npcs: Seq<u64>,
    items: Seq<u64>,
) -> Seq<(usize, MapPosition, Seq<u64>, int)> {
    seq![(ownerid, mapid, players, 1int), (ownerid, mapid, npcs, 0int), (ownerid, mapid, items, 2int)]
}

/// A task as its owner, map, ids to load and kind (0 NPCs, 1 players,
/// 2 items).
pub open spec fn task_view(t: MapSwitchTasks) -> (usize, MapPosition, Seq<u64>, int) {
    match t {
        MapSwitchTasks::Npc(k) => (k.ownerid, k.mapid, k.currentids@, 0int),
        MapSwitchTasks::Player(k) => (k.ownerid, k.mapid, k.currentids@, 1int),
        MapSwitchTasks::Items(k) => (k.ownerid, k.mapid, k.currentids@, 2int),
    }
}

/// Builds the three loading tasks of a map switch: players, NPCs, items.
pub fn new_switch_tasks(
    ownerid: usize,
    mapid: MapPosition,
    players: Vec<u64>,
    npcs: Vec<u64>,
    items: Vec<u64>,
) -> (r: Vec<MapSwitchTasks>)
    ensures
        r@.map_values(|t: MapSwitchTasks| task_view(t)) == spec_switch_tasks(ownerid, mapid, players@, npcs@, items@),
{
    let ghost (p, n, i) = (players@, npcs@, items@);
    let mut r: Vec<MapSwitchTasks> = Vec::new();
    r.push(MapSwitchTasks::Player(MapSwitchTask { ownerid, mapid, currentids: players }));
    r.push(MapSwitchTasks::Npc(MapSwitchTask { ownerid, mapid, currentids: npcs }));
    r.push(MapSwitchTasks::Items(MapSwitchTask { ownerid, mapid, currentids: items }));
    assert(r@.map_values(|t: MapSwitchTasks| task_view(t)) =~= spec_switch_tasks(ownerid, mapid, p, n, i));
    r
}

/// Takes all of a player's task keys, last first: the keys, in the order
/// returned, are the ones to remove from the world's task store; the player
/// holds none afterwards.
pub fn take_task_keys(user_keys: &mut Vec<u64>) -> (removed: Vec<u64>)
    ensures
        removed@ == old(user_keys)@.reverse(),
        final(user_keys)@.len() == 0,
{
    let ghost orig = user_keys@;
    let mut removed: Vec<u64> = Vec::new();
    while user_keys.len() > 0
        invariant
            user_keys@ == orig.subrange(0, user_keys@.len() as int),
            removed@.len() + user_keys@.len() == orig.len(),
            forall|i: int| 0 <= i < removed@.len() ==> removed@[i] == orig[orig.len() - 1 - i],
        decreases user_keys@.len(),
    {
        if let Some(k) = user_keys.pop() {
            removed.push(k);
        }
    }
    assert(removed@ =~= orig.reverse());
    removed
}

/// Records the store keys of the three new tasks for the player, after
/// whatever keys the player held.
pub fn record_task_keys(user_keys: &mut Vec<u64>, keys: [u64; 3])
    ensures
        final(user_keys)@ == old(user_keys)@ + seq![keys[0], keys[1], keys[2]],
{
    let ghost before = user_keys@;
    user_keys.push(keys[0]);
    user_keys.push(keys[1]);
    user_keys.push(keys[2]);
    assert(user_keys@ =~= before + seq![keys[0], keys[1], keys[2]]);
}

/// Loading and removing after a map switch are exactly right: an id is
/// loaded exactly when it is seen now and was not before, and removed
/// exactly when it was seen before and is not now.
pub proof fn lemma_switch_exact(old_ids: Seq<u64>, new_ids: Seq<u64>, id: u64)
    ensures
        spec_missing_from(new_ids, old_ids).contains(id) <==> new_ids.contains(id) && !old_ids.contains(id),
        spec_missing_from(old_ids, new_ids).contains(id) <==> old_ids.contains(id) && !new_ids.contains(id),
{
    lemma_switch_disjoint(old_ids, new_ids, id);
    let p1 = |x: u64| !old_ids.contains(x);
    let p2 = |x: u64| !new_ids.contains(x);
    if new_ids.contains(id) && !old_ids.contains(id) {
        let i = choose|i: int| 0 <= i < new_ids.len() && new_ids[i] == id;
        new_ids.lemma_filter_contains(p1, i);
    }
    if old_ids.contains(id) && !new_ids.contains(id) {
        let i = choose|i: int| 0 <= i < old_ids.len() && old_ids[i] == id;
        old_ids.lemma_filter_contains(p2, i);
    }
}

/// After a map switch nothing is both loaded and removed; every loaded id is
/// newly seen and every removed id is no longer seen.
pub proof fn lemma_switch_disjoint(old_ids: Seq<u64>, new_ids: Seq<u64>, id: u64)
    ensures
        spec_missing_from(new_ids, old_ids).contains(id) ==> new_ids.contains(id) && !old_ids.contains(id),
        spec_missing_from(old_ids, new_ids).contains(id) ==> old_ids.contains(id) && !new_ids.contains(id),
        !(spec_missing_from(new_ids, old_ids).contains(id) && spec_missing_from(old_ids, new_ids).contains(id)),
{
    let p1 = |x: u64| !old_ids.contains(x);
    let p2 = |x: u64| !new_ids.contains(x);
    if spec_missing_from(new_ids, old_ids).contains(id) {
        new_ids.lemma_filter_contains_rev(p1, id);
    }
    if spec_missing_from(old_ids, new_ids).contains(id) {
        old_ids.lemma_filter_contains_rev(p2, id);
    }
}

} // verus!
