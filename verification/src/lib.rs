//! Tab management for multi-tab terminal windows: the tab bar's model, its
//! configuration and colours, hit resolution, and the tab lifecycle of a window
//! (create, switch, close), with the laws these operations obey.

pub mod bar_laws;
pub mod color;
pub mod events;
pub mod laws;
pub mod config;
pub mod tab;
pub mod window_context;
