use ascending::containers::entity::player_data::{IsUsingType, TradeStatus};
use ascending::containers::entity::shared_data::DeathType;
use ascending::gameloop::handledata::handle_general::{
    check_message, close_shop, close_storage, plan_buy_item, plan_sell_item, plan_trade_request, MessageAlert,
    MessageCheck, Purchase, TradeRequest,
};
use ascending::gameloop::handledata::handle_trade::{
    accept_trade, close_trade_target, count_item, decline_trade, plan_add_trade_item, remove_trade_item, submit_trade,
    trade_add_amount, update_trade_money, RequestAnswer, SubmitAction,
};
use ascending::gametypes::enums::{ItemTypes, MessageChannel};
use ascending::gametypes::error::AscendingError;
use ascending::gametypes::map_position::MapPosition;
use ascending::gametypes::position::Position;
use ascending::identity::GlobalKey;
use ascending::items::item::Item;
use ascending::items::itemdata::{ItemData, Rgba};
use ascending::items::shopdata::{ShopData, ShopItem};
use ascending::time_ext::MyInstant;

fn item(num: u32, val: u16) -> Item {
    Item { num, val, level: 1, data: [0; 5] }
}

fn data(stackable: bool, stacklimit: u16, baseprice: u64) -> ItemData {
    ItemData {
        name: "thing".to_string(),
        levelreq: 0,
        soundid: 0,
        sprite: 0,
        animation: None,
        data: [0; 20],
        itemtype: ItemTypes::Nothing,
        itemtype2: 0,
        breakable: false,
        stackable,
        stacklimit,
        baseprice,
        repairable: false,
        rgba: Rgba { r: 0, g: 0, b: 0, a: 0 },
        sound_index: None,
    }
}

fn bag(filled: &[(usize, Item)]) -> Vec<Item> {
    let mut v = vec![Item::new(0); 30];
    for (i, it) in filled {
        v[*i] = *it;
    }
    v
}

const ME: GlobalKey = GlobalKey(1);
const PARTNER: GlobalKey = GlobalKey(2);

#[test]
fn counting_and_capping_trade_amounts() {
    let inv = bag(&[(0, item(1, 5)), (3, item(1, 7)), (4, item(2, 9))]);
    assert_eq!(count_item(1, &inv), 12);
    assert_eq!(count_item(2, &inv), 9);
    assert_eq!(count_item(3, &inv), 0);
    assert_eq!(trade_add_amount(50, true, 20, 100, 0), 20);
    assert_eq!(trade_add_amount(50, false, 20, 100, 0), 50);
    assert_eq!(trade_add_amount(50, false, 20, 60, 30), 30);
    assert_eq!(trade_add_amount(50, false, 20, 20, 30), 0);
}

#[test]
fn adding_to_a_trade() {
    let inv = bag(&[(0, item(1, 5)), (3, item(1, 7))]);
    let offered = vec![item(1, 10)];
    let items = vec![data(false, 1, 0), data(true, 50, 0)];
    let trading = IsUsingType::Trading(PARTNER);
    assert_eq!(
        plan_add_trade_item(ME, DeathType::Alive, trading, TradeStatus::Nothing, true, &inv, &offered, 0, 9, &items),
        Some((PARTNER, item(1, 2)))
    );
    assert_eq!(
        plan_add_trade_item(ME, DeathType::Alive, trading, TradeStatus::Nothing, true, &inv, &vec![], 0, 9, &items),
        Some((PARTNER, item(1, 9)))
    );
    assert_eq!(
        plan_add_trade_item(ME, DeathType::Alive, trading, TradeStatus::Accepted, true, &inv, &vec![], 0, 9, &items),
        None
    );
    assert_eq!(
        plan_add_trade_item(ME, DeathType::Alive, trading, TradeStatus::Nothing, false, &inv, &vec![], 0, 9, &items),
        None
    );
    assert_eq!(
        plan_add_trade_item(ME, DeathType::Alive, trading, TradeStatus::Nothing, true, &inv, &vec![], 1, 9, &items),
        None
    );
}

#[test]
fn removing_from_a_trade() {
    let trading = IsUsingType::Trading(PARTNER);
    let mut offered = vec![item(1, 10), item(2, 3)];
    assert_eq!(remove_trade_item(ME, DeathType::Alive, trading, TradeStatus::Nothing, &mut offered, 0, 4), Some(PARTNER));
    assert_eq!(offered[0], item(1, 6));
    assert_eq!(remove_trade_item(ME, DeathType::Alive, trading, TradeStatus::Nothing, &mut offered, 1, 30), Some(PARTNER));
    assert_eq!(offered[1], Item::new(0));
    assert_eq!(remove_trade_item(ME, DeathType::Alive, trading, TradeStatus::Submitted, &mut offered, 0, 1), None);
    assert_eq!(offered[0], item(1, 6));
}

#[test]
fn trade_money_and_status() {
    let trading = IsUsingType::Trading(PARTNER);
    assert_eq!(update_trade_money(ME, DeathType::Alive, trading, TradeStatus::Nothing, 100, 250), Some((PARTNER, 100)));
    assert_eq!(update_trade_money(ME, DeathType::Alive, trading, TradeStatus::Nothing, 100, 25), Some((PARTNER, 25)));
    assert_eq!(update_trade_money(ME, DeathType::Alive, IsUsingType::Idle, TradeStatus::Nothing, 100, 25), None);
    assert_eq!(submit_trade(TradeStatus::Nothing, TradeStatus::Nothing), (TradeStatus::Accepted, SubmitAction::SendStatus));
    assert_eq!(submit_trade(TradeStatus::Accepted, TradeStatus::Accepted), (TradeStatus::Submitted, SubmitAction::SendStatus));
    assert_eq!(submit_trade(TradeStatus::Accepted, TradeStatus::Submitted), (TradeStatus::Submitted, SubmitAction::ProcessTrade));
    assert_eq!(submit_trade(TradeStatus::Accepted, TradeStatus::Nothing), (TradeStatus::Accepted, SubmitAction::SendStatus));
    assert_eq!(submit_trade(TradeStatus::Submitted, TradeStatus::Nothing), (TradeStatus::Submitted, SubmitAction::SendStatus));
}

#[test]
fn answering_trade_requests() {
    assert_eq!(accept_trade(ME, true, false, Some(PARTNER), Some(Some(ME))), RequestAnswer::Answered(PARTNER));
    assert_eq!(accept_trade(ME, true, false, Some(PARTNER), Some(None)), RequestAnswer::ClearMine);
    assert_eq!(accept_trade(ME, true, false, Some(PARTNER), None), RequestAnswer::ClearMine);
    assert_eq!(accept_trade(ME, false, false, Some(PARTNER), Some(Some(ME))), RequestAnswer::Ignore);
    assert_eq!(decline_trade(ME, true, false, Some(PARTNER), None), RequestAnswer::Ignore);
    assert_eq!(decline_trade(ME, true, false, Some(PARTNER), Some(Some(ME))), RequestAnswer::Answered(PARTNER));
    assert_eq!(decline_trade(ME, true, false, Some(PARTNER), Some(Some(GlobalKey(9)))), RequestAnswer::ClearMine);
}

#[test]
fn closing_trade_shop_and_bank() {
    let trading = IsUsingType::Trading(PARTNER);
    assert!(matches!(close_trade_target(ME, DeathType::Alive, trading, true), Ok(Some(k)) if k == PARTNER));
    assert!(matches!(close_trade_target(ME, DeathType::Alive, trading, false), Err(AscendingError::InvalidSocket)));
    assert!(matches!(close_trade_target(ME, DeathType::Alive, IsUsingType::Idle, true), Ok(None)));
    assert_eq!(close_shop(DeathType::Alive, IsUsingType::Store(3)), Some(IsUsingType::Idle));
    assert_eq!(close_shop(DeathType::Alive, IsUsingType::Bank), None);
    assert_eq!(close_storage(DeathType::Alive, IsUsingType::Bank), Some(IsUsingType::Idle));
    assert_eq!(close_storage(DeathType::Dead, IsUsingType::Bank), None);
}

#[test]
fn chat_messages() {
    let me = "alice".to_string();
    let empty = String::new();
    assert_eq!(check_message(MessageChannel::Global, "hi", &empty, &me, false, false), MessageCheck::Send);
    let long = "x".repeat(256);
    assert_eq!(check_message(MessageChannel::Global, &long, &empty, &me, true, true), MessageCheck::Alert(MessageAlert::TooLong));
    assert_eq!(check_message(MessageChannel::Global, &"x".repeat(255), &empty, &me, true, true), MessageCheck::Send);
    assert_eq!(check_message(MessageChannel::Private, "hi", &empty, &me, true, true), MessageCheck::Drop);
    assert_eq!(check_message(MessageChannel::Private, "hi", &me, &me, true, true), MessageCheck::Alert(MessageAlert::ToSelf));
    let bob = "bob".to_string();
    assert_eq!(check_message(MessageChannel::Private, "hi", &bob, &me, false, false), MessageCheck::Alert(MessageAlert::Offline));
    assert_eq!(check_message(MessageChannel::Private, "hi", &bob, &me, true, false), MessageCheck::Drop);
    assert_eq!(check_message(MessageChannel::Private, "hi", &bob, &me, true, true), MessageCheck::Send);
    assert_eq!(MessageAlert::TooLong.text(), "Your message is too long. (256 character limit)");
    assert_eq!(MessageAlert::ToSelf.text(), "You cannot send messages to yourself");
    assert_eq!(MessageAlert::Offline.text(), "Player is offline or does not exist");
}

fn shop() -> ShopData {
    let mut offers = [ShopItem { index: 0, amount: 0, price: 0 }; 20];
    offers[2] = ShopItem { index: 7, amount: 3, price: 50 };
    ShopData { name: "general".to_string(), max_item: 3, item: offers }
}

#[test]
fn buying_and_selling() {
    let shops = vec![shop()];
    assert_eq!(plan_buy_item(DeathType::Alive, IsUsingType::Store(0), 49, &shops, 2), Purchase::NotEnoughMoney);
    assert_eq!(
        plan_buy_item(DeathType::Alive, IsUsingType::Store(0), 50, &shops, 2),
        Purchase::Buy { item: Item { num: 7, val: 3, level: 1, data: [0; 5] }, price: 50 }
    );
    assert_eq!(plan_buy_item(DeathType::Alive, IsUsingType::Idle, 50, &shops, 2), Purchase::Ignore);
    let inv = bag(&[(1, item(0, 10))]);
    let items = vec![data(true, 99, 12)];
    assert_eq!(plan_sell_item(DeathType::Alive, IsUsingType::Store(0), &inv, &items, 1, 4), Some((4, 48)));
    assert_eq!(plan_sell_item(DeathType::Alive, IsUsingType::Store(0), &inv, &items, 1, 40), Some((10, 120)));
    assert_eq!(plan_sell_item(DeathType::Alive, IsUsingType::Store(0), &inv, &items, 2, 4), None);
    assert_eq!(plan_sell_item(DeathType::Alive, IsUsingType::Idle, &inv, &items, 1, 4), None);
}

#[test]
fn trade_requests() {
    let map = MapPosition::new(0, 0, 0);
    let near = Position::new(5, 5, map);
    let next = Position::new(5, 6, map);
    let far = Position::new(9, 9, map);
    let ask = |target, exists, is_player, pos, timer| {
        plan_trade_request(ME, target, exists, is_player, near, pos, DeathType::Alive, true, timer, MyInstant(1000))
    };
    assert_eq!(ask(Some(PARTNER), true, true, next, MyInstant(0)), TradeRequest::Send { partner: PARTNER, until: MyInstant(61000) });
    assert_eq!(ask(Some(PARTNER), true, true, far, MyInstant(0)), TradeRequest::Busy);
    assert_eq!(ask(Some(PARTNER), true, true, next, MyInstant(5000)), TradeRequest::Busy);
    assert_eq!(ask(None, true, true, next, MyInstant(0)), TradeRequest::NotFound);
    assert_eq!(ask(Some(ME), true, true, next, MyInstant(0)), TradeRequest::NotFound);
    assert_eq!(ask(Some(PARTNER), false, true, next, MyInstant(0)), TradeRequest::NotFound);
    assert_eq!(ask(Some(PARTNER), true, false, next, MyInstant(0)), TradeRequest::Ignore);
    assert_eq!(TradeRequest::Busy.text(), Some("Player is busy"));
    assert_eq!(TradeRequest::NotFound.text(), Some("Could not find player"));
    assert_eq!(TradeRequest::Send { partner: PARTNER, until: MyInstant(1) }.text(), Some("Trade Request Sent"));
    assert_eq!(TradeRequest::Ignore.text(), None);
}
