pub mod config;
pub mod date;
pub mod request;
pub mod state;
