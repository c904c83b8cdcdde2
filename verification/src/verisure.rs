pub mod json;
pub mod queries;
pub mod types;
pub mod reply;
pub mod client;
