//! The first generation of the manager: fixed addresses of the game's main
//! module, plugin files and configuration names, frame statistics and the
//! overlay window's state.

pub mod address;
pub mod plugins;
pub mod stats;
pub mod main_window;
