//! The placement engine of a hotkey-triggered overlay that shows the keyboard
//! shortcuts of the application the user was last working in.
pub mod defaults;
pub mod geometry;
pub mod hotkey;
pub mod registry;
pub mod registry_laws;
pub mod storage;
pub mod text;
pub mod toggle;
pub mod toggle_laws;
pub mod window_detection;
