//! Plugin scripting and cover art for a terminal music player.

pub mod api;
pub mod app;
pub mod cover_art;
pub mod effects;
pub mod engine;
pub mod events;
pub mod handlers;
pub mod harness;
pub mod interpreter;
pub mod plugin_api;
pub mod shared;
pub mod values;
