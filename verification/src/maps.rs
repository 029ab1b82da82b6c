pub mod actor;
pub mod grid;
pub mod map;
pub mod mapitem;
pub mod logic;
pub mod packets;
pub mod store;
