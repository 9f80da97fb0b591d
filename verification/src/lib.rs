pub mod json;
pub mod ids;
pub mod pending;
pub mod command;
pub mod client;
