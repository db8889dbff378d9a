//! The commands that the front end can call.

pub mod config;
pub mod file;
pub mod system;
