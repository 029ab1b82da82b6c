use vstd::prelude::*;

verus! {

/// The in-game clock.
#[derive(Copy, Clone, Debug, PartialEq, Eq, Structural)]
pub struct GameTime {
    pub hour: u32,
    pub min: u32,
    pub sec: u32,
}

/// A clock reading names a time of day.
pub open spec fn valid_hms(hour: u32, min: u32, sec: u32) -> bool {
    hour < 24 && min < 60 && sec < 60
}

/// Seconds since midnight of a valid reading.
pub open spec fn hms_seconds(hour: u32, min: u32, sec: u32) -> int {
    hour * 3600 + min * 60 + sec
}

/// The time of day a clock reading stands for, in seconds since midnight;
/// a reading that names no time of day stands for midnight.
pub open spec fn spec_time_of_day(t: GameTime) -> int {
    if valid_hms(t.hour, t.min, t.sec) { hms_seconds(t.hour, t.min, t.sec) } else { 0 }
}

/// `chrono::NaiveTime::from_hms_opt` read back through
/// `Timelike::num_seconds_from_midnight`: chrono gives a time exactly when
/// the hour is below 24 and minute and second below 60, at
/// `hour * 3600 + min * 60 + sec` seconds after midnight.
#[verifier::external_body]
fn naive_seconds_from_hms(hour: u32, min: u32, sec: u32) -> (r: Option<u32>)
    ensures
        r == (if valid_hms(hour, min, sec) { Some(hms_seconds(hour, min, sec) as u32) } else { None }),
{
    match chrono::NaiveTime::from_hms_opt(hour, min, sec) {
        Some(t) => Some(chrono::Timelike::num_seconds_from_midnight(&t)),
        None => None,
    }
}

impl Default for GameTime {
    fn default() -> (r: GameTime)
        ensures
            r == (GameTime { hour: 0, min: 0, sec: 0 }),
    {
        GameTime { hour: 0, min: 0, sec: 0 }
    }
}

impl GameTime {
    /// The time of day in seconds since midnight; a reading that is not a
    /// time of day counts as midnight.
    pub fn get_time(&self) -> (r: u32)
        ensures
            r == spec_time_of_day(*self),
    {
        match naive_seconds_from_hms(self.hour, self.min, self.sec) {
            Some(secs) => secs,
            None => 0,
        }
    }

    /// Whether this time of day lies between `from` and `to`, both included.
    pub fn in_range(&self, from: GameTime, to: GameTime) -> (r: bool)
        ensures
            r == (spec_time_of_day(from) <= spec_time_of_day(*self) <= spec_time_of_day(to)),
    {
        let maintime = self.get_time();
        maintime >= from.get_time() && maintime <= to.get_time()
    }

    /// Moves the clock on by one game minute, wrapping minutes at 60 and
    /// hours at 24.
    pub fn advance_minute(&mut self)
        requires
            old(self).min < u32::MAX,
            old(self).hour < u32::MAX,
        ensures
            *final(self) == spec_advance_minute(*old(self)),
    {
        self.min = self.min + 1;
        if self.min >= 60 {
            self.min = 0;
            self.hour = self.hour + 1;
            if self.hour >= 24 {
                self.hour = 0;
            }
        }
    }
}

/// The clock one game minute later.
pub open spec fn spec_advance_minute(t: GameTime) -> GameTime {
    if t.min + 1 >= 60 {
        GameTime { hour: if t.hour + 1 >= 24 { 0 } else { (t.hour + 1) as u32 }, min: 0, sec: t.sec }
    } else {
        GameTime { hour: t.hour, min: (t.min + 1) as u32, sec: t.sec }
    }
}

/// Advancing a valid clock by one minute gives a valid clock whose time of
/// day is sixty seconds later, wrapping at midnight.
pub proof fn lemma_advance_minute_adds_sixty_seconds(t: GameTime)
    requires
        valid_hms(t.hour, t.min, t.sec),
    ensures
        valid_hms(spec_advance_minute(t).hour, spec_advance_minute(t).min, spec_advance_minute(t).sec),
        spec_time_of_day(spec_advance_minute(t)) == (spec_time_of_day(t) + 60) % 86400,
{
}

} // verus!
