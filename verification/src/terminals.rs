//! The terminals that a session can be opened in.

pub mod kitty;
pub mod macos;
pub mod terminal_interface;
