use vstd::prelude::*;

use crate::time_ext::MyInstant;
use crate::gametypes::game_time::{spec_advance_minute, GameTime};

verus! {

/// Milliseconds between two pings of every socket: two hours.
pub const PING_INTERVAL: u64 = 7_200_000;

/// Player-side work of one loop turn; the three kinds take turns.
#[derive(Copy, Clone, Debug, PartialEq, Eq, Structural)]
pub enum EntityWork {
    Players,
    Connections,
    MapItems,
}

/// NPC work of one loop turn, on one batch of NPCs.
#[derive(Copy, Clone, Debug, PartialEq, Eq, Structural)]
pub enum NpcWork {
    /// Every batch was served: unload the dead NPCs, then count the batches
    /// again (`set_npc_count`).
    Unload,
    Targeting(usize),
    Movement(usize),
    Combat(usize),
    Spawn(usize),
}

/// What one turn of the game loop must do, besides polling the sockets and
/// running the packet and task queues, which it does every turn.
#[derive(Copy, Clone, Debug, PartialEq, Eq, Structural)]
pub struct LoopActions {
    pub entity: Option<EntityWork>,
    pub npc: Option<NpcWork>,
    pub update_maps: bool,
    pub advance_minute: bool,
    pub ping: bool,
}

/// The game loop's timers (each the instant after which its work is due)
/// and the counters that share the work out over turns.
#[derive(Copy, Clone, Debug, PartialEq, Eq, Structural)]
pub struct LoopState {
    pub entity_progress: u64,
    pub npc_progress: u64,
    pub npc_batch: usize,
    pub max_batch: usize,
    pub tmr100: MyInstant,
    pub tmr150: MyInstant,
    pub tmr500: MyInstant,
    pub tmr1000: MyInstant,
    pub tmr60000: MyInstant,
    pub ping_timer: MyInstant,
}

/// NPCs are served in five batches, so a batch holds a fifth of them,
/// rounded up.
pub open spec fn spec_npc_batches(npc_count: int) -> int {
    (npc_count + 4) / 5
}

pub fn npc_batches(npc_count: usize) -> (r: usize)
    ensures
        r == spec_npc_batches(npc_count as int),
{
    npc_count / 5 + if npc_count % 5 == 0 { 0 } else { 1 }
}

/// The counters stay in their cycles: the entity counter is at most 3 and
/// the NPC counter at most 4.
pub open spec fn loop_well_formed(s: LoopState) -> bool {
    &&& s.entity_progress <= 3
    &&& s.npc_progress <= 4
}

/// Whether a tick leaves room for every timer the loop may set from it.
pub open spec fn tick_fits(tick: MyInstant) -> bool {
    tick.0 + PING_INTERVAL <= u64::MAX
}

pub open spec fn later(t: MyInstant, ms: int) -> MyInstant {
    MyInstant((t.0 + ms) as u64)
}

/// The entity part of a turn: due when the tick passes `tmr100`; counter 1
/// checks connections, 2 updates map items, anything else updates players,
/// restarts the cycle and sets the next due time 100 ms on.
pub open spec fn spec_entity_turn(s: LoopState, tick: MyInstant) -> (LoopState, Option<EntityWork>) {
    if tick.0 > s.tmr100.0 {
        if s.entity_progress == 1 {
            (LoopState { entity_progress: 2, ..s }, Some(EntityWork::Connections))
        } else if s.entity_progress == 2 {
            (LoopState { entity_progress: 3, ..s }, Some(EntityWork::MapItems))
        } else {
            (LoopState { entity_progress: 1, tmr100: later(tick, 100), ..s }, Some(EntityWork::Players))
        }
    } else {
        (s, None)
    }
}

/// The NPC part of a turn: due when the tick passes `tmr150`. Once every
/// batch was served the dead are unloaded and the cycle restarts 150 ms on;
/// else the current batch gets spawning (counter 0 or 4), targeting (1),
/// movement (2) or combat (3), and spawning moves on to the next batch.
pub open spec fn spec_npc_turn(s: LoopState, tick: MyInstant) -> (LoopState, Option<NpcWork>) {
    if tick.0 > s.tmr150.0 {
        if s.npc_batch >= s.max_batch {
            (LoopState { npc_batch: 0, tmr150: later(tick, 150), ..s }, Some(NpcWork::Unload))
        } else if s.npc_progress == 1 {
            (LoopState { npc_progress: 2, ..s }, Some(NpcWork::Targeting(s.npc_batch)))
        } else if s.npc_progress == 2 {
            (LoopState { npc_progress: 3, ..s }, Some(NpcWork::Movement(s.npc_batch)))
        } else if s.npc_progress == 3 {
            (LoopState { npc_progress: 4, ..s }, Some(NpcWork::Combat(s.npc_batch)))
        } else {
            (
                LoopState { npc_progress: 1, npc_batch: (s.npc_batch + 1) as usize, ..s },
                Some(NpcWork::Spawn(s.npc_batch)),
            )
        }
    } else {
        (s, None)
    }
}

/// One turn of the game loop at `tick`: the entity and NPC parts, then the
/// map update every 500 ms, the one-second timer, the game clock every
/// minute and the pings every two hours, each re-armed from `tick` when it
/// runs.
pub open spec fn spec_loop_turn(s: LoopState, tick: MyInstant) -> (LoopState, LoopActions) {
    let (s1, entity) = spec_entity_turn(s, tick);
    let (s2, npc) = spec_npc_turn(s1, tick);
    let maps = tick.0 > s.tmr500.0;
    let second = tick.0 > s.tmr1000.0;
    let minute = tick.0 > s.tmr60000.0;
    let ping = tick.0 > s.ping_timer.0;
    (
        LoopState {
            tmr500: if maps { later(tick, 500) } else { s.tmr500 },
            tmr1000: if second { later(tick, 1000) } else { s.tmr1000 },
            tmr60000: if minute { later(tick, 60000) } else { s.tmr60000 },
            ping_timer: if ping { later(tick, PING_INTERVAL as int) } else { s.ping_timer },
            ..s2
        },
        LoopActions { entity, npc, update_maps: maps, advance_minute: minute, ping },
    )
}

/// The player-side work that follows `w`.
pub open spec fn next_entity_work(w: EntityWork) -> EntityWork {
    match w {
        EntityWork::Players => EntityWork::Connections,
        EntityWork::Connections => EntityWork::MapItems,
        EntityWork::MapItems => EntityWork::Players,
    }
}

/// Player-side work takes turns: whenever it runs twice in a row (at two
/// turns, however far apart), players, connections and map items follow
/// one another in that order, round and round.
pub proof fn lemma_entity_work_rotates(s: LoopState, t1: MyInstant, t2: MyInstant)
    requires
        loop_well_formed(s),
        spec_loop_turn(s, t1).1.entity is Some,
        spec_loop_turn(spec_loop_turn(s, t1).0, t2).1.entity is Some,
    ensures
        spec_loop_turn(spec_loop_turn(s, t1).0, t2).1.entity->0 == next_entity_work(spec_loop_turn(s, t1).1.entity->0),
{
}

impl LoopState {
    /// A loop started at `now` with `npc_count` NPCs: every timer due at
    /// once, the counters at zero.
    pub fn new(now: MyInstant, npc_count: usize) -> (r: LoopState)
        ensures
            r == (LoopState {
                entity_progress: 0,
                npc_progress: 0,
                npc_batch: 0,
                max_batch: spec_npc_batches(npc_count as int) as usize,
                tmr100: now,
                tmr150: now,
                tmr500: now,
                tmr1000: now,
                tmr60000: now,
                ping_timer: now,
            }),
            loop_well_formed(r),
    {
        LoopState {
            entity_progress: 0,
            npc_progress: 0,
            npc_batch: 0,
            max_batch: npc_batches(npc_count),
            tmr100: now,
            tmr150: now,
            tmr500: now,
            tmr1000: now,
            tmr60000: now,
            ping_timer: now,
        }
    }

    /// After the unload, the batches are counted again from the NPCs left.
    pub fn set_npc_count(&mut self, npc_count: usize)
        ensures
            *final(self) == (LoopState { max_batch: spec_npc_batches(npc_count as int) as usize, ..*old(self) }),
    {
        self.max_batch = npc_batches(npc_count);
    }

    /// Decides one turn of the loop at `tick`; see `spec_loop_turn`.
    pub fn turn(&mut self, tick: MyInstant) -> (r: LoopActions)
        requires
            loop_well_formed(*old(self)),
            tick_fits(tick),
        ensures
            (*final(self), r) == spec_loop_turn(*old(self), tick),
            loop_well_formed(*final(self)),
    {
        let mut entity: Option<EntityWork> = None;
        if tick.0 > self.tmr100.0 {
            if self.entity_progress == 1 {
                entity = Some(EntityWork::Connections);
            } else if self.entity_progress == 2 {
                entity = Some(EntityWork::MapItems);
            } else {
                entity = Some(EntityWork::Players);
                self.entity_progress = 0;
                self.tmr100 = tick.add_millis(100);
            }
            self.entity_progress = self.entity_progress + 1;
        }

        let mut npc: Option<NpcWork> = None;
        if tick.0 > self.tmr150.0 {
            if self.npc_batch >= self.max_batch {
                npc = Some(NpcWork::Unload);
                self.npc_batch = 0;
                self.tmr150 = tick.add_millis(150);
            } else {
                if self.npc_progress == 1 {
                    npc = Some(NpcWork::Targeting(self.npc_batch));
                } else if self.npc_progress == 2 {
                    npc = Some(NpcWork::Movement(self.npc_batch));
                } else if self.npc_progress == 3 {
                    npc = Some(NpcWork::Combat(self.npc_batch));
                } else {
                    npc = Some(NpcWork::Spawn(self.npc_batch));
                    self.npc_progress = 0;
                    self.npc_batch = self.npc_batch + 1;
                }
                self.npc_progress = self.npc_progress + 1;
            }
        }

        let update_maps = tick.0 > self.tmr500.0;
        if update_maps {
            self.tmr500 = tick.add_millis(500);
        }
        if tick.0 > self.tmr1000.0 {
            self.tmr1000 = tick.add_millis(1000);
        }
        let advance_minute = tick.0 > self.tmr60000.0;
        if advance_minute {
            self.tmr60000 = tick.add_millis(60000);
        }
        let ping = tick.0 > self.ping_timer.0;
        if ping {
            self.ping_timer = tick.add_millis(PING_INTERVAL);
        }
        LoopActions { entity, npc, update_maps, advance_minute, ping }
    }
}

/// One turn of the game loop together with the game clock: the turn of
/// `LoopState::turn`, and the clock moved on by one game minute exactly when
/// the turn's minute timer ran.
pub fn clock_turn(state: &mut LoopState, time: &mut GameTime, tick: MyInstant) -> (r: LoopActions)
    requires
        loop_well_formed(*old(state)),
        tick_fits(tick),
        old(time).min < u32::MAX,
        old(time).hour < u32::MAX,
    ensures
        (*final(state), r) == spec_loop_turn(*old(state), tick),
        loop_well_formed(*final(state)),
        *final(time) == (if r.advance_minute { spec_advance_minute(*old(time)) } else { *old(time) }),
{
    let r = state.turn(tick);
    if r.advance_minute {
        time.advance_minute();
    }
    r
}

/// The game clock stays a time of day: a clock with hour below 24 and
/// minute below 60 keeps both below after a turn, keeps its seconds, and
/// either stays or moves on by exactly one minute.
pub proof fn lemma_clock_stays_in_day(s: LoopState, time: GameTime, tick: MyInstant)
    requires
        time.hour < 24,
        time.min < 60,
    ensures
        ({
            let after = if spec_loop_turn(s, tick).1.advance_minute { spec_advance_minute(time) } else { time };
            &&& after.hour < 24
            &&& after.min < 60
            &&& after.sec == time.sec
            &&& after == time || after == spec_advance_minute(time)
        }),
{
}

/// The clock moves at most once per 60000 ms of tick: a turn moves it only
/// when the tick has passed the minute timer, and then sets the timer 60000
/// ms after the tick; a turn that does not move it leaves the timer alone.
/// So of two turns that both move it, the later tick is more than 60000 ms
/// after the earlier.
pub proof fn lemma_clock_once_a_minute(s: LoopState, t1: MyInstant, t2: MyInstant)
    requires
        tick_fits(t1),
    ensures
        spec_loop_turn(s, t1).1.advance_minute ==> t1.0 > s.tmr60000.0
            && spec_loop_turn(s, t1).0.tmr60000 == later(t1, 60000),
        !spec_loop_turn(s, t1).1.advance_minute ==> spec_loop_turn(s, t1).0.tmr60000 == s.tmr60000,
        spec_loop_turn(s, t1).1.advance_minute && spec_loop_turn(spec_loop_turn(s, t1).0, t2).1.advance_minute
            ==> t2.0 > t1.0 + 60000,
{
}

} // verus!
