use vstd::prelude::*;

use crate::gametypes::map_position::MapPosition;
use crate::identity::GlobalKey;
use crate::maps::mapitem::DropItem;

verus! {

/// A neighbouring map's answer to a drop request.
#[derive(Copy, Clone, Debug, PartialEq, Eq, Structural)]
pub enum MapQuickResponse {
    Nothing,
    /// That map took `drop_amount` of `item` and holds claim `claim_id`.
    DropItem { map_id: MapPosition, item: DropItem, drop_amount: u16, claim_id: GlobalKey },
}

/// Settling an answer to drop requests: what is still awaited after it, and
/// the drop to confirm to the answering map, of the amount it took. An
/// answer that took nothing settles nothing.
pub fn settle_drop_answer(awaited: u64, answer: MapQuickResponse) -> (r: (u64, Option<(MapPosition, DropItem, GlobalKey)>))
    requires
        answer matches MapQuickResponse::DropItem { drop_amount, .. } ==> drop_amount <= awaited,
    ensures
        r == (match answer {
            MapQuickResponse::DropItem { map_id, item, drop_amount, claim_id } => if drop_amount > 0 {
                ((awaited - drop_amount) as u64, Some((map_id, DropItem { amount: drop_amount, ..item }, claim_id)))
            } else {
                (awaited, None)
            },
            MapQuickResponse::Nothing => (awaited, None),
        }),
{
    match answer {
        MapQuickResponse::DropItem { map_id, item, drop_amount, claim_id } => {
            if drop_amount > 0 {
                (awaited - drop_amount as u64, Some((map_id, DropItem { amount: drop_amount, ..item }, claim_id)))
            } else {
                (awaited, None)
            }
        },
        MapQuickResponse::Nothing => (awaited, None),
    }
}

} // verus!
