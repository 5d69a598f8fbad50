//! Core state, caches and decision logic of a terminal MPD client.

pub mod actions;
pub mod assoc;
pub mod casing;
pub mod cli;
pub mod clock;
pub mod config;
pub mod config_check;
pub mod cover_cache;
pub mod dirty;
pub mod display;
pub mod keybinds;
pub mod keymap;
pub mod layout;
pub mod library;
pub mod logging;
pub mod menu;
pub mod navigation;
pub mod order;
pub mod pipewire;
pub mod render_cache;
pub mod rows;
pub mod saved_state;
pub mod scan;
pub mod session;
pub mod song;
pub mod status_line;
pub mod suggest;
pub mod text;
pub mod width;
pub mod width_cache;
