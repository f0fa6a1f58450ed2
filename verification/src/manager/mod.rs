//! The plugin manager: game addresses, configuration, plugins, fonts,
//! shared textures, frame statistics and the overlay's window state.

pub mod address;
pub mod config;
pub mod font;
pub mod plugin_manager;
pub mod stats;
pub mod texture;
pub mod ui;
