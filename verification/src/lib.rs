//! The native side of a desktop application: the decisions behind the
//! commands that a webview front end can call, kept apart from the windowing
//! toolkit, the settings store and the network so that each can be proved.

pub mod commands;
pub mod menu;
pub mod text;
