use vstd::prelude::*;

verus! {

/// A point on the server's monotonic clock, in milliseconds.
#[derive(Copy, Clone, Debug, PartialEq, Eq, Structural)]
pub struct MyInstant(pub u64);

impl MyInstant {
    /// The instant `ms` milliseconds later.
    pub fn add_millis(self, ms: u64) -> (r: MyInstant)
        requires
            self.0 + ms <= u64::MAX,
        ensures
            r.0 == self.0 + ms,
    {
        MyInstant(self.0 + ms)
    }

    /// Whether this instant is strictly after `other`.
    pub fn is_after(self, other: MyInstant) -> (r: bool)
        ensures
            r == (self.0 > other.0),
    {
        self.0 > other.0
    }
}

} // verus!
