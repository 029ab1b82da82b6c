use vstd::prelude::*;

use crate::containers::entity::player_data::{IsUsingType, TradeStatus};
use crate::containers::entity::shared_data::DeathType;
use crate::gametypes::error::AscendingError;
use crate::gametypes::MAX_INV;
use crate::identity::GlobalKey;
use crate::items::item::{empty_item, sat_sub, Item};
use crate::items::itemdata::ItemData;

verus! {

/// How much of item `num` the stacks in `items` hold together.
pub open spec fn spec_count_item(num: u32, items: Seq<Item>) -> int
    decreases items.len(),
{
    if items.len() == 0 {
        0
    } else {
        spec_count_item(num, items.drop_last()) + if items.last().num == num { items.last().val as int } else { 0 }
    }
}

proof fn lemma_count_bound(num: u32, items: Seq<Item>)
    ensures
        0 <= spec_count_item(num, items) <= items.len() * 65535,
    decreases items.len(),
{
    if items.len() > 0 {
        lemma_count_bound(num, items.drop_last());
    }
}

/// How much of item `num` a list of stacks holds.
pub fn count_item(num: u32, items: &Vec<Item>) -> (r: u64)
    requires
        items@.len() <= 0x1_0000_0000,
    ensures
        r == spec_count_item(num, items@),
{
    let mut total: u64 = 0;
    let mut i: usize = 0;
    while i < items.len()
        invariant
            i <= items@.len(),
            items@.len() <= 0x1_0000_0000,
            total == spec_count_item(num, items@.subrange(0, i as int)),
        decreases items@.len() - i,
    {
        assert(items@.subrange(0, i + 1).drop_last() == items@.subrange(0, i as int));
        proof { lemma_count_bound(num, items@.subrange(0, i + 1)); }
        if items[i].num == num {
            total = total + items[i].val as u64;
        }
        i = i + 1;
    }
    assert(items@.subrange(0, items@.len() as int) == items@);
    total
}

/// How much of an item a player may still put into a trade: the request,
/// capped at the stack limit for stackable items, and at what the bag holds
/// beyond what is already offered.
pub open spec fn spec_trade_add_amount(requested: u64, stackable: bool, stacklimit: u16, inv_count: u64, trade_count: u64) -> int {
    let capped = if stackable && requested > stacklimit { stacklimit as int } else { requested as int };
    if trade_count + capped > inv_count { sat_sub(inv_count as int, trade_count as int) } else { capped }
}

pub fn trade_add_amount(requested: u64, stackable: bool, stacklimit: u16, inv_count: u64, trade_count: u64) -> (r: u64)
    requires
        trade_count + requested <= u64::MAX,
    ensures
        r == spec_trade_add_amount(requested, stackable, stacklimit, inv_count, trade_count),
{
    let mut amount = requested;
    if stackable && amount > stacklimit as u64 {
        amount = stacklimit as u64;
    }
    if trade_count + amount > inv_count {
        amount = inv_count.saturating_sub(trade_count);
    }
    amount
}

/// Offering more never makes a trade hold more than the bag: starting from
/// an offer within the bag, the offer stays within it.
pub proof fn lemma_trade_offer_within_bag(requested: u64, stackable: bool, stacklimit: u16, inv_count: u64, trade_count: u64)
    requires
        trade_count <= inv_count,
    ensures
        trade_count + spec_trade_add_amount(requested, stackable, stacklimit, inv_count, trade_count) <= inv_count,
        stackable ==> spec_trade_add_amount(requested, stackable, stacklimit, inv_count, trade_count) <= stacklimit,
        spec_trade_add_amount(requested, stackable, stacklimit, inv_count, trade_count) <= requested,
{
}

/// The player may change the trade: alive, trading and not yet accepted.
pub open spec fn can_edit_trade(death: DeathType, using: IsUsingType, status: TradeStatus) -> bool {
    death is Alive && using is Trading && status == TradeStatus::Nothing
}

/// What adding from bag `slot` to a trade comes to: the partner and the stack
/// to offer, or nothing when the player may not trade, trades with itself or
/// a partner that is gone, names an empty or missing slot, or has nothing
/// left to offer.
pub open spec fn spec_add_trade_item(
    me: GlobalKey,
    death: DeathType,
    using: IsUsingType,
    status: TradeStatus,
    partner_exists: bool,
    inventory: Seq<Item>,
    trade_items: Seq<Item>,
    slot: usize,
    requested: u64,
    items: Seq<ItemData>,
) -> Option<(GlobalKey, Item)> {
    if !can_edit_trade(death, using, status) {
        None
    } else {
        let partner = using->Trading_0;
        if partner == me || !partner_exists || slot >= MAX_INV || inventory[slot as int].val == 0 {
            None
        } else {
            let it = inventory[slot as int];
            let base = items[it.num as int];
            let amount = spec_trade_add_amount(
                requested,
                base.stackable,
                base.stacklimit,
                spec_count_item(it.num, inventory) as u64,
                spec_count_item(it.num, trade_items) as u64,
            );
            if amount == 0 { None } else { Some((partner, Item { val: amount as u16, ..it })) }
        }
    }
}

/// Decides an add-to-trade request; see `spec_add_trade_item`.
pub fn plan_add_trade_item(
    me: GlobalKey,
    death: DeathType,
    using: IsUsingType,
    status: TradeStatus,
    partner_exists: bool,
    inventory: &Vec<Item>,
    trade_items: &Vec<Item>,
    slot: usize,
    requested: u16,
    items: &Vec<ItemData>,
) -> (r: Option<(GlobalKey, Item)>)
    requires
        inventory@.len() == MAX_INV,
        trade_items@.len() <= 0x1_0000,
        forall|i: int| 0 <= i < inventory@.len() && inventory@[i].val != 0 ==> (#[trigger] inventory@[i]).num < items@.len(),
    ensures
        r == spec_add_trade_item(me, death, using, status, partner_exists, inventory@, trade_items@, slot, requested as u64, items@),
{
    if !death.is_alive() || !using.is_trading() || status != TradeStatus::Nothing {
        return None;
    }
    let partner = match using {
        IsUsingType::Trading(k) => k,
        _ => return None,
    };
    if partner == me || !partner_exists {
        return None;
    }
    if slot >= MAX_INV || inventory[slot].val == 0 {
        return None;
    }
    let mut inv_item = inventory[slot];
    let base = &items[inv_item.num as usize];
    let inv_count = count_item(inv_item.num, inventory);
    let trade_count = count_item(inv_item.num, trade_items);
    proof { lemma_count_bound(inv_item.num, trade_items@); }
    let amount = trade_add_amount(requested as u64, base.stackable, base.stacklimit, inv_count, trade_count);
    if amount == 0 {
        return None;
    }
    inv_item.val = amount as u16;
    Some((partner, inv_item))
}

/// Takes up to `amount` back out of trade `slot`; an emptied slot becomes an
/// empty stack. Returns the partner to tell, or nothing when the player may
/// not change the trade, trades with itself, or the slot is empty.
pub fn remove_trade_item(
    me: GlobalKey,
    death: DeathType,
    using: IsUsingType,
    status: TradeStatus,
    trade_items: &mut Vec<Item>,
    slot: usize,
    amount: u64,
) -> (r: Option<GlobalKey>)
    requires
        can_edit_trade(death, using, status) && using->Trading_0 != me ==> slot < old(trade_items)@.len(),
    ensures
        (!can_edit_trade(death, using, status) || using->Trading_0 == me || old(trade_items)@[slot as int].val == 0)
            ==> r is None && final(trade_items)@ == old(trade_items)@,
        can_edit_trade(death, using, status) && using->Trading_0 != me && old(trade_items)@[slot as int].val != 0 ==> {
            let old_item = old(trade_items)@[slot as int];
            let left = sat_sub(old_item.val as int, amount as int);
            &&& r == Some(using->Trading_0)
            &&& final(trade_items)@ == old(trade_items)@.update(
                slot as int,
                if left == 0 { empty_item() } else { Item { val: left as u16, ..old_item } },
            )
        },
{
    if !death.is_alive() || !using.is_trading() || status != TradeStatus::Nothing {
        return None;
    }
    let partner = match using {
        IsUsingType::Trading(k) => k,
        _ => return None,
    };
    if partner == me {
        return None;
    }
    let mut item = trade_items[slot];
    if item.val == 0 {
        return None;
    }
    let take: u64 = if amount < item.val as u64 { amount } else { item.val as u64 };
    item.val = item.val - take as u16;
    if item.val == 0 {
        item = Item::default();
    }
    trade_items.set(slot, item);
    Some(partner)
}

/// What a money offer comes to: the partner and the amount, capped at the
/// player's money; nothing when the player may not change the trade or
/// trades with itself.
pub fn update_trade_money(
    me: GlobalKey,
    death: DeathType,
    using: IsUsingType,
    status: TradeStatus,
    money: u64,
    requested: u64,
) -> (r: Option<(GlobalKey, u64)>)
    ensures
        r == (if can_edit_trade(death, using, status) && using->Trading_0 != me {
            Some((using->Trading_0, if requested < money { requested } else { money }))
        } else {
            None
        }),
{
    let amount = if requested < money { requested } else { money };
    if !death.is_alive() || !using.is_trading() || status != TradeStatus::Nothing {
        return None;
    }
    let partner = match using {
        IsUsingType::Trading(k) => k,
        _ => return None,
    };
    if partner == me {
        return None;
    }
    Some((partner, amount))
}

/// What a submit does after the statuses are updated.
#[derive(Copy, Clone, Debug, PartialEq, Eq, Structural)]
pub enum SubmitAction {
    /// Tell both players the statuses.
    SendStatus,
    /// Both have submitted: carry out the trade and close it.
    ProcessTrade,
}

/// The player's status after pressing submit, and what follows: the first
/// press accepts; a second, once the partner accepted too, submits; once the
/// partner has submitted, it submits and the trade is carried out.
pub open spec fn spec_submit_trade(mine: TradeStatus, theirs: TradeStatus) -> (TradeStatus, SubmitAction) {
    match mine {
        TradeStatus::Nothing => (TradeStatus::Accepted, SubmitAction::SendStatus),
        TradeStatus::Accepted => match theirs {
            TradeStatus::Accepted => (TradeStatus::Submitted, SubmitAction::SendStatus),
            TradeStatus::Submitted => (TradeStatus::Submitted, SubmitAction::ProcessTrade),
            TradeStatus::Nothing => (TradeStatus::Accepted, SubmitAction::SendStatus),
        },
        TradeStatus::Submitted => (TradeStatus::Submitted, SubmitAction::SendStatus),
    }
}

pub fn submit_trade(mine: TradeStatus, theirs: TradeStatus) -> (r: (TradeStatus, SubmitAction))
    ensures
        r == spec_submit_trade(mine, theirs),
        status_rank(r.0) == if mine == TradeStatus::Nothing || (mine == TradeStatus::Accepted && theirs != TradeStatus::Nothing) {
            status_rank(mine) + 1
        } else {
            status_rank(mine)
        },
        r.1 == SubmitAction::ProcessTrade <==> (mine == TradeStatus::Accepted && theirs == TradeStatus::Submitted),
{
    proof {
        lemma_submit_advances(mine, theirs);
    }
    match mine {
        TradeStatus::Nothing => (TradeStatus::Accepted, SubmitAction::SendStatus),
        TradeStatus::Accepted => {
            if theirs == TradeStatus::Accepted {
                (TradeStatus::Submitted, SubmitAction::SendStatus)
            } else if theirs == TradeStatus::Submitted {
                (TradeStatus::Submitted, SubmitAction::ProcessTrade)
            } else {
                (TradeStatus::Accepted, SubmitAction::SendStatus)
            }
        },
        TradeStatus::Submitted => (TradeStatus::Submitted, SubmitAction::SendStatus),
    }
}

/// Rank of a trade status: none, accepted, submitted.
pub open spec fn status_rank(s: TradeStatus) -> int {
    match s {
        TradeStatus::Nothing => 0,
        TradeStatus::Accepted => 1,
        TradeStatus::Submitted => 2,
    }
}

/// Submitting never moves a player's status back; a trade is carried out only
/// when the partner had already submitted and the player had accepted, and
/// then both stand submitted.
pub proof fn lemma_submit_trade_monotone(mine: TradeStatus, theirs: TradeStatus)
    ensures
        status_rank(spec_submit_trade(mine, theirs).0) >= status_rank(mine),
        spec_submit_trade(mine, theirs).1 == SubmitAction::ProcessTrade
            <==> (mine == TradeStatus::Accepted && theirs == TradeStatus::Submitted),
        spec_submit_trade(mine, theirs).1 == SubmitAction::ProcessTrade
            ==> spec_submit_trade(mine, theirs).0 == TradeStatus::Submitted,
{
}

/// Pressing submit moves a player one status on (none, accepted, submitted)
/// when it can: from none always, whatever the partner's status; from
/// accepted once the partner has accepted or submitted. Otherwise (accepted
/// while the partner has done nothing, or already submitted) it stays. The
/// trade is carried out exactly when an accepting player meets a submitted
/// partner.
pub proof fn lemma_submit_advances(mine: TradeStatus, theirs: TradeStatus)
    ensures
        status_rank(spec_submit_trade(mine, theirs).0)
            == if mine == TradeStatus::Nothing || (mine == TradeStatus::Accepted && theirs != TradeStatus::Nothing) {
                status_rank(mine) + 1
            } else {
                status_rank(mine)
            },
        mine == TradeStatus::Nothing ==> spec_submit_trade(mine, theirs).0 == TradeStatus::Accepted,
        spec_submit_trade(mine, theirs).1 == SubmitAction::ProcessTrade
            <==> (mine == TradeStatus::Accepted && theirs == TradeStatus::Submitted),
{
}

/// How a trade-request answer turns out.
#[derive(Copy, Clone, Debug, PartialEq, Eq, Structural)]
pub enum RequestAnswer {
    /// Nothing happens.
    Ignore,
    /// The player's own request is dropped, nothing else.
    ClearMine,
    /// Both requests are dropped and the answer goes through with `partner`.
    Answered(GlobalKey),
}

/// Accepting a trade request: an alive, idle player who asked `t` (not
/// itself) drops the request; the trade opens when `t` asked the player back.
/// `partner_request` is `t`'s request, or `None` when `t` is gone.
pub open spec fn spec_accept_trade(
    me: GlobalKey,
    alive: bool,
    inuse: bool,
    my_request: Option<GlobalKey>,
    partner_request: Option<Option<GlobalKey>>,
) -> RequestAnswer {
    if !alive || inuse || my_request is None || my_request->0 == me {
        RequestAnswer::Ignore
    } else if partner_request == Some(Some(me)) {
        RequestAnswer::Answered(my_request->0)
    } else {
        RequestAnswer::ClearMine
    }
}

pub fn accept_trade(
    me: GlobalKey,
    alive: bool,
    inuse: bool,
    my_request: Option<GlobalKey>,
    partner_request: Option<Option<GlobalKey>>,
) -> (r: RequestAnswer)
    ensures
        r == spec_accept_trade(me, alive, inuse, my_request, partner_request),
{
    if !alive || inuse {
        return RequestAnswer::Ignore;
    }
    let target = match my_request {
        Some(t) => t,
        None => return RequestAnswer::Ignore,
    };
    if target == me {
        return RequestAnswer::Ignore;
    }
    match partner_request {
        Some(Some(back)) => {
            if back == me {
                RequestAnswer::Answered(target)
            } else {
                RequestAnswer::ClearMine
            }
        },
        _ => RequestAnswer::ClearMine,
    }
}

/// Declining a trade request: like accepting, except that nothing at all
/// happens when the asked player is gone.
pub open spec fn spec_decline_trade(
    me: GlobalKey,
    alive: bool,
    inuse: bool,
    my_request: Option<GlobalKey>,
    partner_request: Option<Option<GlobalKey>>,
) -> RequestAnswer {
    if !alive || inuse || my_request is None || my_request->0 == me || partner_request is None {
        RequestAnswer::Ignore
    } else if partner_request == Some(Some(me)) {
        RequestAnswer::Answered(my_request->0)
    } else {
        RequestAnswer::ClearMine
    }
}

pub fn decline_trade(
    me: GlobalKey,
    alive: bool,
    inuse: bool,
    my_request: Option<GlobalKey>,
    partner_request: Option<Option<GlobalKey>>,
) -> (r: RequestAnswer)
    ensures
        r == spec_decline_trade(me, alive, inuse, my_request, partner_request),
{
    if !alive || inuse {
        return RequestAnswer::Ignore;
    }
    let target = match my_request {
        Some(t) => t,
        None => return RequestAnswer::Ignore,
    };
    if target == me {
        return RequestAnswer::Ignore;
    }
    match partner_request {
        None => RequestAnswer::Ignore,
        Some(Some(back)) => {
            if back == me {
                RequestAnswer::Answered(target)
            } else {
                RequestAnswer::ClearMine
            }
        },
        Some(None) => RequestAnswer::ClearMine,
    }
}

/// Closing a trade: an alive trading player with another partner closes it
/// with that partner (`Ok(Some)`); otherwise nothing happens (`Ok(None)`),
/// except that a partner who is gone is an invalid request.
pub fn close_trade_target(
    me: GlobalKey,
    death: DeathType,
    using: IsUsingType,
    partner_exists: bool,
) -> (r: Result<Option<GlobalKey>, AscendingError>)
    ensures
        !(death is Alive && using is Trading) ==> r == Ok::<Option<GlobalKey>, AscendingError>(None),
        death is Alive && using is Trading && using->Trading_0 == me ==> r == Ok::<Option<GlobalKey>, AscendingError>(None),
        death is Alive && using is Trading && using->Trading_0 != me && partner_exists
            ==> r == Ok::<Option<GlobalKey>, AscendingError>(Some(using->Trading_0)),
        death is Alive && using is Trading && using->Trading_0 != me && !partner_exists
            ==> r == Err::<Option<GlobalKey>, AscendingError>(AscendingError::InvalidSocket),
{
    if !death.is_alive() || !using.is_trading() {
        return Ok(None);
    }
    let partner = match using {
        IsUsingType::Trading(k) => k,
        _ => return Ok(None),
    };
    if partner == me {
        return Ok(None);
    }
    if partner_exists {
        Ok(Some(partner))
    } else {
        Err(AscendingError::InvalidSocket)
    }
}

} // verus!
