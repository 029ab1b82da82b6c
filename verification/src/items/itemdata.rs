use vstd::prelude::*;

use crate::gametypes::enums::ItemTypes;

verus! {

/// A colour with alpha.
#[derive(Copy, Clone, Debug, PartialEq, Eq, Structural)]
pub struct Rgba {
    pub r: i16,
    pub g: i16,
    pub b: i16,
    pub a: i16,
}

/// The static description of an item kind.
#[derive(Clone, Debug)]
pub struct ItemData {
    pub name: String,
    pub levelreq: u16,
    pub soundid: u16,
    pub sprite: u16,
    pub animation: Option<u32>,
    pub data: [i16; 20],
    pub itemtype: ItemTypes,
    pub itemtype2: u8,
    pub breakable: bool,
    pub stackable: bool,
    pub stacklimit: u16,
    pub baseprice: u64,
    pub repairable: bool,
    pub rgba: Rgba,
    pub sound_index: Option<String>,
}

/// The stack rules of an item kind as the item logic reads them.
#[derive(Copy, Clone, Debug, PartialEq, Eq, Structural)]
pub struct StackRule {
    pub stackable: bool,
    pub stacklimit: u16,
}

impl ItemData {
    pub fn stack_rule(&self) -> (r: StackRule)
        ensures
            r == (StackRule { stackable: self.stackable, stacklimit: self.stacklimit }),
    {
        StackRule { stackable: self.stackable, stacklimit: self.stacklimit }
    }
}

} // verus!
