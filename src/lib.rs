//! Drives a rectangular LED matrix from sandboxed plugins: the coordinate
//! map of the strip wiring, the frame buffer controller and the plugin
//! scheduler's decisions.

pub mod config;
pub mod logging;
pub mod matrix_control;
pub mod matrix_map;
pub mod path_map;
pub mod plugin_iterator;
pub mod scheduler;
