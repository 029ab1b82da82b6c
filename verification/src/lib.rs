pub mod containers;
pub mod database;
pub mod gameloop;
pub mod gametypes;
pub mod identity;
pub mod items;
pub mod ipc;
pub mod logins;
pub mod maps;
pub mod time_ext;
