use ascending::containers::entity::player_data::{IsUsingType, UserAccess};
use ascending::containers::entity::shared_data::DeathType;
use ascending::gameloop::handledata::handle_item::{
    delete_item_amount, delete_storage_item_amount, pickup_gate, pickup_in_reach, pickup_result, plan_deposit,
    plan_drop_item, plan_switch_inv_slot, plan_switch_storage_slot, plan_withdraw, plural_suffix, swap_slots,
    unequip_allowed, use_item_gate, PickupResult, SlotSwitch, Transfer,
};
use ascending::gametypes::enums::MapPosDir;
use ascending::gametypes::error::AscendingError;
use ascending::gametypes::map_position::MapPosition;
use ascending::gametypes::position::Position;
use ascending::identity::GlobalKey;
use ascending::items::item::{val_add_amount_rem, val_add_rem, Item};
use ascending::maps::mapitem::MapItem;
use ascending::time_ext::MyInstant;

fn item(num: u32, val: u16) -> Item {
    Item { num, val, level: 1, data: [0; 5] }
}

fn bag(slots: usize, filled: &[(usize, Item)]) -> Vec<Item> {
    let mut v = vec![Item::new(0); slots];
    for (i, it) in filled {
        v[*i] = *it;
    }
    v
}

#[test]
fn stacking_moves_what_fits() {
    let (mut val, mut add) = (90u16, 30u16);
    assert_eq!(val_add_rem(&mut val, &mut add, 100), 20);
    assert_eq!((val, add), (100, 20));
    assert_eq!(val + add, 120);
    let (mut val, mut add) = (10u16, 30u16);
    assert_eq!(val_add_rem(&mut val, &mut add, 100), 0);
    assert_eq!((val, add), (40, 0));
    let (mut val, mut add) = (150u16, 5u16);
    assert_eq!(val_add_rem(&mut val, &mut add, 100), 5);
    assert_eq!(val, 150);
}

#[test]
fn stacking_from_a_source() {
    let (mut a, mut b) = (95u16, 20u16);
    assert_eq!(val_add_amount_rem(&mut a, &mut b, 20, 100), 15);
    assert_eq!((a, b), (100, 15));
    let (mut a, mut b) = (5u16, 20u16);
    assert_eq!(val_add_amount_rem(&mut a, &mut b, 20, 100), 0);
    assert_eq!((a, b), (25, 0));
}

#[test]
fn item_use_and_unequip() {
    let now = MyInstant(1000);
    assert_eq!(use_item_gate(DeathType::Alive, IsUsingType::Idle, false, false, MyInstant(900), now), Some(MyInstant(1250)));
    assert_eq!(use_item_gate(DeathType::Alive, IsUsingType::Idle, false, false, MyInstant(1001), now), None);
    assert_eq!(use_item_gate(DeathType::Dead, IsUsingType::Idle, false, false, MyInstant(0), now), None);
    assert_eq!(use_item_gate(DeathType::Alive, IsUsingType::Bank, false, false, MyInstant(0), now), None);
    let eq = bag(5, &[(2, item(7, 1))]);
    assert!(unequip_allowed(DeathType::Alive, IsUsingType::Idle, false, false, MyInstant(0), now, &eq, 2));
    assert!(!unequip_allowed(DeathType::Alive, IsUsingType::Idle, false, false, MyInstant(0), now, &eq, 1));
    assert!(!unequip_allowed(DeathType::Alive, IsUsingType::Idle, false, false, MyInstant(0), now, &eq, 5));
    assert!(!unequip_allowed(DeathType::Alive, IsUsingType::Idle, true, false, MyInstant(0), now, &eq, 2));
}

#[test]
fn switching_bag_slots() {
    let now = MyInstant(10);
    let inv = bag(30, &[(0, item(3, 10)), (1, item(3, 5)), (2, item(4, 1))]);
    let go = |old, new, amount| plan_switch_inv_slot(DeathType::Alive, IsUsingType::Idle, false, false, MyInstant(0), now, &inv, old, new, amount);
    assert_eq!(go(0, 1, 4), SlotSwitch::Merge(4));
    assert_eq!(go(0, 1, 50), SlotSwitch::Merge(10));
    assert_eq!(go(0, 2, 10), SlotSwitch::Swap);
    assert_eq!(go(0, 2, 3), SlotSwitch::Reject);
    assert_eq!(go(0, 9, 3), SlotSwitch::Swap);
    assert_eq!(go(9, 0, 3), SlotSwitch::Ignore);
    assert_eq!(go(0, 30, 3), SlotSwitch::Ignore);
    let trading = IsUsingType::Trading(GlobalKey(1));
    assert_eq!(plan_switch_inv_slot(DeathType::Alive, trading, false, false, MyInstant(0), now, &inv, 0, 1, 1), SlotSwitch::Ignore);
    assert_eq!(plan_switch_storage_slot(DeathType::Alive, IsUsingType::Bank, false, false, &inv, 0, 1, 2), SlotSwitch::Merge(2));
    assert_eq!(plan_switch_storage_slot(DeathType::Alive, IsUsingType::Idle, false, false, &inv, 0, 1, 2), SlotSwitch::Ignore);
}

#[test]
fn swapping_twice_restores() {
    let mut inv = bag(4, &[(0, item(1, 1)), (3, item(2, 2))]);
    let before = inv.clone();
    swap_slots(&mut inv, 0, 3);
    assert_eq!(inv[0], item(2, 2));
    assert_eq!(inv[3], item(1, 1));
    swap_slots(&mut inv, 0, 3);
    assert_eq!(inv, before);
}

#[test]
fn bank_transfers() {
    let inv = bag(30, &[(0, item(3, 10))]);
    let bank = bag(70, &[(5, item(3, 2)), (6, item(8, 8))]);
    let dep = |inv_slot, bank_slot, amount| {
        plan_deposit(DeathType::Alive, IsUsingType::Bank, false, false, &inv, &bank, inv_slot, bank_slot, amount)
    };
    assert_eq!(dep(0, 0, 4), Transfer::IntoEmptySlot(item(3, 4)));
    assert_eq!(dep(0, 5, 40), Transfer::Stack(item(3, 10)));
    assert_eq!(dep(1, 5, 4), Transfer::Ignore);
    assert_eq!(dep(0, 70, 4), Transfer::Ignore);
    assert_eq!(plan_deposit(DeathType::Alive, IsUsingType::Idle, false, false, &inv, &bank, 0, 0, 1), Transfer::Ignore);
    let wd = |inv_slot, bank_slot, amount| {
        plan_withdraw(DeathType::Alive, IsUsingType::Bank, false, false, &inv, &bank, inv_slot, bank_slot, amount)
    };
    assert_eq!(wd(1, 6, 3), Transfer::IntoEmptySlot(item(8, 3)));
    assert_eq!(wd(0, 5, 3), Transfer::Stack(item(3, 2)));
    assert_eq!(wd(0, 0, 3), Transfer::Ignore);
    assert_eq!(wd(30, 5, 3), Transfer::Ignore);
}

#[test]
fn deleting_items() {
    let inv = bag(30, &[(4, item(3, 9))]);
    assert_eq!(delete_item_amount(DeathType::Alive, IsUsingType::Idle, false, false, &inv, 4), Some(9));
    assert_eq!(delete_item_amount(DeathType::Alive, IsUsingType::Idle, false, false, &inv, 5), None);
    assert_eq!(delete_item_amount(DeathType::Alive, IsUsingType::Idle, false, true, &inv, 4), None);
    let bank = bag(70, &[(69, item(1, 3))]);
    assert_eq!(delete_storage_item_amount(DeathType::Alive, IsUsingType::Bank, false, false, &bank, 69), Some(3));
    assert_eq!(delete_storage_item_amount(DeathType::Alive, IsUsingType::Idle, false, false, &bank, 69), None);
}

#[test]
fn dropping_items() {
    let inv = bag(30, &[(0, item(3, 10))]);
    let pos = Position::new(4, 4, MapPosition::new(0, 0, 0));
    let me = GlobalKey(42);
    let tick = MyInstant(1000);
    let plan = plan_drop_item(me, DeathType::Alive, IsUsingType::Idle, false, false, UserAccess::Nothing, &inv, 0, 4, pos, true, tick)
        .unwrap()
        .unwrap();
    assert_eq!(plan.amount, 4);
    assert_eq!(plan.item, item(3, 10));
    assert_eq!(plan.despawn, Some(MyInstant(601000)));
    assert_eq!(plan.ownertimer, Some(MyInstant(6000)));
    assert_eq!(plan.ownerid, Some(me));
    let admin = plan_drop_item(me, DeathType::Alive, IsUsingType::Idle, false, false, UserAccess::Admin, &inv, 0, 40, pos, true, tick)
        .unwrap()
        .unwrap();
    assert_eq!(admin.amount, 10);
    assert_eq!(admin.despawn, None);
    assert!(matches!(
        plan_drop_item(me, DeathType::Alive, IsUsingType::Idle, false, false, UserAccess::Nothing, &inv, 0, 4, pos, false, tick),
        Err(AscendingError::Unhandled)
    ));
    assert!(matches!(
        plan_drop_item(me, DeathType::Alive, IsUsingType::Idle, false, false, UserAccess::Nothing, &inv, 0, 0, pos, true, tick),
        Ok(None)
    ));
}

#[test]
fn picking_up() {
    assert_eq!(pickup_gate(DeathType::Alive, IsUsingType::Idle, false, false, MyInstant(5), MyInstant(10)), Some(MyInstant(110)));
    assert_eq!(pickup_gate(DeathType::Alive, IsUsingType::Idle, false, false, MyInstant(11), MyInstant(10)), None);
    let map = MapPosition::new(0, 0, 0);
    let at = |x, y| {
        let mut m = MapItem::new(1);
        m.pos = Position::new(x, y, map);
        m
    };
    let items = vec![at(5, 5), at(9, 9), at(6, 4), at(0, 0)];
    assert_eq!(pickup_in_reach(Position::new(5, 5, map), MapPosDir::Center, &items), vec![0, 2]);
    let right = vec![at(0, 5), at(1, 5)];
    assert_eq!(pickup_in_reach(Position::new(31, 5, map), MapPosDir::Right, &right), vec![0]);
    assert_eq!(pickup_result(false, 0, 5), PickupResult::InventoryFull);
    assert_eq!(pickup_result(true, 3, 5), PickupResult::Partial { taken: 3, left: 2 });
    assert_eq!(pickup_result(true, 5, 5), PickupResult::Whole { taken: 5 });
    assert_eq!(plural_suffix(1), "");
    assert_eq!(plural_suffix(0), "");
    assert_eq!(plural_suffix(2), "'s");
}
