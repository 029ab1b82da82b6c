pub mod actor;

use vstd::prelude::*;

verus! {

/// The key of a world entity: a slot index and its generation, in the
/// `(version << 32) | index` layout that the key has on the wire.
#[derive(Copy, Clone, Debug, PartialEq, Eq, Structural, Hash)]
pub struct GlobalKey(pub u64);

/// Wire value of the null key (index `u32::MAX`, version 1).
pub open spec fn null_key_value() -> u64 {
    0x0000_0001_ffff_ffff
}

impl GlobalKey {
    /// The null key, which names no entity.
    pub fn null() -> (r: GlobalKey)
        ensures
            r.0 == null_key_value(),
    {
        GlobalKey(0x0000_0001_ffff_ffff)
    }

    /// The slot index part of the key.
    pub fn index(&self) -> (r: u32)
        ensures
            r == self.0 % 0x1_0000_0000,
    {
        (self.0 % 0x1_0000_0000) as u32
    }

    /// The generation part of the key.
    pub fn version(&self) -> (r: u32)
        ensures
            r == self.0 / 0x1_0000_0000,
    {
        (self.0 / 0x1_0000_0000) as u32
    }

    pub fn is_null(&self) -> (r: bool)
        ensures
            r == (self.0 == null_key_value()),
    {
        self.0 == 0x0000_0001_ffff_ffff
    }
}

impl Default for GlobalKey {
    fn default() -> (r: GlobalKey)
        ensures
            r.0 == null_key_value(),
    {
        GlobalKey::null()
    }
}

/// The key of a resource claim held by a map.
#[derive(Copy, Clone, Debug, PartialEq, Eq, Structural, Hash)]
pub struct ClaimsKey(pub u64);

} // verus!
