pub mod actor;
