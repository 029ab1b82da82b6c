pub mod datatasks;
pub mod handledata;
pub mod mapswitchtasks;
pub mod mainloop;
