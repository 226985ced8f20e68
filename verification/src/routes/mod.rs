//! The decisions of the HTTP handlers, apart from the I/O around them.
pub mod auth;
pub mod config_js;
pub mod experiments;
pub mod track;
pub mod users;
