//! Types shared with the user interface: log levels and the edited configuration.

pub mod config;
pub mod log;
