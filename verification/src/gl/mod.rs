pub mod config;
pub mod macos;
