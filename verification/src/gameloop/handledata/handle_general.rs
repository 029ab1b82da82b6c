use vstd::prelude::*;

use crate::containers::entity::player_data::IsUsingType;
use crate::containers::entity::shared_data::DeathType;
use crate::gametypes::enums::MessageChannel;
use crate::gametypes::position::Position;
use crate::gametypes::MAX_INV;
use crate::identity::GlobalKey;
use crate::items::item::{empty_item, Item};
use crate::items::itemdata::ItemData;
use crate::items::shopdata::ShopData;
use crate::maps::logic::{can_target, spec_can_target, target_fits};
use crate::time_ext::MyInstant;

verus! {

/// Why a chat message is refused.
#[derive(Copy, Clone, Debug, PartialEq, Eq, Structural)]
pub enum MessageAlert {
    TooLong,
    ToSelf,
    Offline,
}

/// What happens to a chat message.
#[derive(Copy, Clone, Debug, PartialEq, Eq, Structural)]
pub enum MessageCheck {
    /// Sent on its channel.
    Send,
    /// Silently dropped.
    Drop,
    /// Refused with an alert to the sender.
    Alert(MessageAlert),
}

impl MessageAlert {
    /// The alert the sender sees.
    pub fn text(self) -> (r: &'static str)
        ensures
            r@ == match self {
                MessageAlert::TooLong => "Your message is too long. (256 character limit)"@,
                MessageAlert::ToSelf => "You cannot send messages to yourself"@,
                MessageAlert::Offline => "Player is offline or does not exist"@,
            },
    {
        match self {
            MessageAlert::TooLong => "Your message is too long. (256 character limit)",
            MessageAlert::ToSelf => "You cannot send messages to yourself",
            MessageAlert::Offline => "Player is offline or does not exist",
        }
    }
}

/// A message of 256 bytes or more is too long; a private message needs a
/// recipient name, not the sender's own, of a player whose name is known
/// (else the sender is told it is offline) and who is still in the world
/// (else the message is dropped).
pub open spec fn spec_check_message(
    channel: MessageChannel,
    msg_bytes: int,
    name: Seq<char>,
    my_name: Seq<char>,
    recipient_known: bool,
    recipient_present: bool,
) -> MessageCheck {
    if msg_bytes >= 256 {
        MessageCheck::Alert(MessageAlert::TooLong)
    } else if channel == MessageChannel::Private {
        if name.len() == 0 {
            MessageCheck::Drop
        } else if name == my_name {
            MessageCheck::Alert(MessageAlert::ToSelf)
        } else if !recipient_known {
            MessageCheck::Alert(MessageAlert::Offline)
        } else if !recipient_present {
            MessageCheck::Drop
        } else {
            MessageCheck::Send
        }
    } else {
        MessageCheck::Send
    }
}

/// What gets through the chat check: every message under 256 bytes on a
/// channel other than the private one; a private message under 256 bytes
/// exactly when it names a known recipient other than the sender who is
/// still in the world. A message of 256 bytes or more is refused as too long
/// on every channel.
pub proof fn lemma_chat_gets_through(
    channel: MessageChannel,
    msg_bytes: int,
    name: Seq<char>,
    my_name: Seq<char>,
    recipient_known: bool,
    recipient_present: bool,
)
    ensures
        msg_bytes >= 256 ==> spec_check_message(channel, msg_bytes, name, my_name, recipient_known, recipient_present)
            == MessageCheck::Alert(MessageAlert::TooLong),
        channel != MessageChannel::Private && msg_bytes < 256
            ==> spec_check_message(channel, msg_bytes, name, my_name, recipient_known, recipient_present) == MessageCheck::Send,
        channel == MessageChannel::Private && msg_bytes < 256
            ==> (spec_check_message(channel, msg_bytes, name, my_name, recipient_known, recipient_present) == MessageCheck::Send
                <==> name.len() > 0 && name != my_name && recipient_known && recipient_present),
{
}

pub fn check_message(
    channel: MessageChannel,
    msg: &str,
    name: &String,
    my_name: &String,
    recipient_known: bool,
    recipient_present: bool,
) -> (r: MessageCheck)
    ensures
        r == spec_check_message(channel, msg.len() as int, name@, my_name@, recipient_known, recipient_present),
        msg.len() >= 256 ==> r == MessageCheck::Alert(MessageAlert::TooLong),
        channel != MessageChannel::Private && msg.len() < 256 ==> r == MessageCheck::Send,
        channel == MessageChannel::Private && msg.len() < 256
            ==> (r == MessageCheck::Send <==> name@.len() > 0 && name@ != my_name@ && recipient_known && recipient_present),
{
    proof {
        lemma_chat_gets_through(channel, msg.len() as int, name@, my_name@, recipient_known, recipient_present);
    }
    if msg.len() >= 256 {
        return MessageCheck::Alert(MessageAlert::TooLong);
    }
    match channel {
        MessageChannel::Private => {
            if name.as_str().is_empty() {
                return MessageCheck::Drop;
            }
            if *name == *my_name {
                return MessageCheck::Alert(MessageAlert::ToSelf);
            }
            if !recipient_known {
                return MessageCheck::Alert(MessageAlert::Offline);
            }
            if !recipient_present {
                return MessageCheck::Drop;
            }
            MessageCheck::Send
        },
        _ => MessageCheck::Send,
    }
}

/// Leaving the bank: an alive player at the bank becomes idle.
pub fn close_storage(death: DeathType, using: IsUsingType) -> (r: Option<IsUsingType>)
    ensures
        r == (if death is Alive && using is Bank { Some(IsUsingType::Idle) } else { None }),
{
    if !death.is_alive() || !using.is_bank() {
        return None;
    }
    Some(IsUsingType::Idle)
}

/// Leaving a shop: an alive player in a shop becomes idle.
pub fn close_shop(death: DeathType, using: IsUsingType) -> (r: Option<IsUsingType>)
    ensures
        r == (if death is Alive && using is Store { Some(IsUsingType::Idle) } else { None }),
{
    if !death.is_alive() || !using.is_instore() {
        return None;
    }
    Some(IsUsingType::Idle)
}

/// The outcome of a purchase request.
#[derive(Copy, Clone, Debug, PartialEq, Eq)]
pub enum Purchase {
    Ignore,
    NotEnoughMoney,
    /// Give this stack for this price, if the bag has room.
    Buy { item: Item, price: u64 },
}

/// Buying offer `slot` of the shop the player is in: refused without the
/// price in money, else the offered stack for the offered price.
pub fn plan_buy_item(death: DeathType, using: IsUsingType, money: u64, shops: &Vec<ShopData>, slot: u16) -> (r: Purchase)
    requires
        using is Store && death is Alive ==> 0 <= using->Store_0 < shops@.len() && slot < 20,
    ensures
        !(death is Alive && using is Store) ==> r == Purchase::Ignore,
        death is Alive && using is Store ==> {
            let offer = shops@[using->Store_0 as int].item[slot as int];
            r == if money < offer.price {
                Purchase::NotEnoughMoney
            } else {
                Purchase::Buy { item: Item { num: offer.index as u32, val: offer.amount, ..empty_item() }, price: offer.price }
            }
        },
{
    if !death.is_alive() || !using.is_instore() {
        return Purchase::Ignore;
    }
    let shop_index = match using {
        IsUsingType::Store(shop) => shop,
        _ => return Purchase::Ignore,
    };
    assert(0 <= shop_index < shops.len());
    let offer = shops[shop_index as usize].item[slot as usize];
    if money < offer.price {
        return Purchase::NotEnoughMoney;
    }
    Purchase::Buy { item: Item { num: offer.index as u32, val: offer.amount, level: 1, data: [0, 0, 0, 0, 0] }, price: offer.price }
}

/// Selling from bag `slot` in a shop: the amount, capped at the stack, and
/// the money it brings at the item's base price (0 for an unknown item).
pub fn plan_sell_item(
    death: DeathType,
    using: IsUsingType,
    inventory: &Vec<Item>,
    items: &Vec<ItemData>,
    slot: usize,
    amount: u16,
) -> (r: Option<(u16, u64)>)
    requires
        inventory@.len() == MAX_INV,
        death is Alive && using is Store ==> slot < MAX_INV,
        death is Alive && using is Store && inventory@[slot as int].val != 0
            && (inventory@[slot as int].num as int) < items@.len() ==> {
            let it = inventory@[slot as int];
            items@[it.num as int].baseprice * (if amount > it.val { it.val } else { amount }) <= u64::MAX
        },
    ensures
        !(death is Alive && using is Store) || inventory@[slot as int].val == 0 ==> r is None,
        death is Alive && using is Store && inventory@[slot as int].val != 0 ==> {
            let it = inventory@[slot as int];
            let sold = if amount > it.val { it.val } else { amount };
            let price = if (it.num as int) < items@.len() { items@[it.num as int].baseprice as int } else { 0 };
            r == Some((sold, (price * sold) as u64))
        },
{
    if !death.is_alive() || !using.is_instore() {
        return None;
    }
    let inv_item = inventory[slot];
    if slot >= MAX_INV || inv_item.val == 0 {
        return None;
    }
    let sold = if amount > inv_item.val { inv_item.val } else { amount };
    let price = if (inv_item.num as usize) < items.len() { items[inv_item.num as usize].baseprice } else { 0 };
    Some((sold, price * sold as u64))
}

/// What a trade request command does.
#[derive(Copy, Clone, Debug, PartialEq, Eq, Structural)]
pub enum TradeRequest {
    /// No player targeted (or the target is gone or the requester).
    NotFound,
    /// The target cannot be asked now.
    Busy,
    /// Send the request; both players hold it until `until`.
    Send { partner: GlobalKey, until: MyInstant },
    /// The target is not a player: nothing happens.
    Ignore,
}

impl TradeRequest {
    /// The private message the requester sees, if any.
    pub fn text(self) -> (r: Option<&'static str>)
        ensures
            match self {
                TradeRequest::Send { .. } => r matches Some(t) && t@ == "Trade Request Sent"@,
                TradeRequest::Busy => r matches Some(t) && t@ == "Player is busy"@,
                TradeRequest::NotFound => r matches Some(t) && t@ == "Could not find player"@,
                TradeRequest::Ignore => r is None,
            },
    {
        match self {
            TradeRequest::Send { .. } => Some("Trade Request Sent"),
            TradeRequest::Busy => Some("Player is busy"),
            TradeRequest::NotFound => Some("Could not find player"),
            TradeRequest::Ignore => None,
        }
    }
}

/// Asking the targeted player to trade: needs a live target other than the
/// requester; a player target is asked when the requester's last request
/// has expired, the target is alive and next to the requester, and can
/// trade; the request then lasts a minute.
pub fn plan_trade_request(
    me: GlobalKey,
    target: Option<GlobalKey>,
    target_exists: bool,
    target_is_player: bool,
    my_pos: Position,
    target_pos: Position,
    target_death: DeathType,
    target_can_trade: bool,
    requesttimer: MyInstant,
    tick: MyInstant,
) -> (r: TradeRequest)
    requires
        target matches Some(t) && target_exists && t != me && target_is_player && requesttimer.0 <= tick.0
            ==> target_fits(my_pos, target_pos),
        tick.0 + 60000 <= u64::MAX,
    ensures
        r == (if target is None || !target_exists || target->0 == me {
            TradeRequest::NotFound
        } else if !target_is_player {
            TradeRequest::Ignore
        } else if requesttimer.0 <= tick.0 && spec_can_target(my_pos, target_pos, target_death, 1) && target_can_trade {
            TradeRequest::Send { partner: target->0, until: MyInstant((tick.0 + 60000) as u64) }
        } else {
            TradeRequest::Busy
        }),
{
    let partner = match target {
        Some(t) => t,
        None => return TradeRequest::NotFound,
    };
    if !target_exists || partner == me {
        return TradeRequest::NotFound;
    }
    if !target_is_player {
        return TradeRequest::Ignore;
    }
    if requesttimer.0 <= tick.0 && can_target(my_pos, target_pos, target_death, 1) && target_can_trade {
        TradeRequest::Send { partner, until: tick.add_millis(60000) }
    } else {
        TradeRequest::Busy
    }
}

} // verus!
