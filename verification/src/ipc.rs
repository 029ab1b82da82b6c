pub mod info_actor;
pub mod packet_ids;
pub mod ipc_actor;
