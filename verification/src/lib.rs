//! Tracks which project a tmux session is editing and turns it into a
//! Discord rich-presence activity.

pub mod text;
pub mod commands;
pub mod interface;
pub mod loader;
pub mod traits;
pub mod events;
pub mod listener;
pub mod client;
pub mod init;
