//! The window-tiling logic of a small tiling window manager: layouts,
//! configuration defaults, hotkey bindings and the manager's state machine.
pub mod layout;
pub mod bounds;
pub mod config;
pub mod keys;
pub mod wm;
pub mod wm_laws;
