pub mod handle_account;
pub mod handle_action;
pub mod handle_general;
pub mod handle_item;
pub mod handle_trade;
pub mod router;
