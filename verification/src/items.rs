pub mod item;
pub mod itemdata;
pub mod shopdata;
