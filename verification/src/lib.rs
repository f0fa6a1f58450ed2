//! Verified core of a plugin manager for Monster Hunter Frontier Z.
//!
//! The manager injects itself into the game, finds the game's main module,
//! loads plugin libraries, draws an overlay and keeps a few timing statistics.
//! This crate holds the decisions behind that work: where the game keeps its
//! data, how plugin files are recognised, how a plugin moves between its load
//! states, how a plugin list is refreshed, how textures finish loading and how
//! frame timings are measured. Everything that touches the operating system,
//! the GPU or floating point lives in the program around it.

pub mod text;
pub mod paths;
pub mod classic;
pub mod manager;
