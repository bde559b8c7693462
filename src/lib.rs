pub mod curve;
pub mod construction;
pub mod snap;
pub mod container;
pub mod laws;
