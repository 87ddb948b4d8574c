//! Decision logic of a Discord Rich Presence daemon for arbitrary games:
//! executable-name normalisation, configuration lookups, the Discord IPC
//! frame format, metadata resolution order, presence payload assembly and
//! the process-watching state machine.

pub mod config;
pub mod game_db;
pub mod ipc;
pub mod manager;
pub mod packet;
pub mod process;
pub mod providers;
pub mod sanitizer;
pub mod text;
pub mod tray;
