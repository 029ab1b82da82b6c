pub mod mapitem_data;
pub mod npc_data;
pub mod player_data;
pub mod shared_data;
