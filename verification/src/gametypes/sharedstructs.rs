use vstd::prelude::*;

verus! {

/// A rectangle of tiles.
#[derive(Copy, Clone, Debug, PartialEq, Eq, Structural, Default)]
pub struct TileBox {
    pub x: u8,
    pub y: u8,
    pub width: u8,
    pub height: u8,
}

/// The two directions at right angles to `dir`: right and left for up and
/// down (0 and 2), up and down for anything else.
pub fn get_dir_sides(dir: u8) -> (r: [u8; 2])
    ensures
        r@ == (if dir == 0 || dir == 2 { seq![1u8, 3u8] } else { seq![0u8, 2u8] }),
{
    match dir {
        0 | 2 => [1, 3],
        _ => [0, 2],
    }
}

} // verus!
