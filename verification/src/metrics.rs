pub mod collector;
pub mod registry;
