pub mod entity;
pub mod storage;
