pub mod api;
pub mod client;
pub mod config;
pub mod json;
