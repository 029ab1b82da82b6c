use vstd::prelude::*;

verus! {

/// One offer of a shop: item kind, amount sold and price.
#[derive(Copy, Clone, Debug, PartialEq, Eq, Structural)]
pub struct ShopItem {
    pub index: u16,
    pub amount: u16,
    pub price: u64,
}

/// A shop and its offers.
#[derive(Clone, Debug)]
pub struct ShopData {
    pub name: String,
    pub max_item: u16,
    pub item: [ShopItem; 20],
}

} // verus!
