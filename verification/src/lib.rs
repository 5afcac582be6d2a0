pub mod actions;
pub mod catalog;
mod randomness;
pub mod roster;
pub mod sim;
