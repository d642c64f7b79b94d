//! Terminal input: keys and mouse events to commands.

pub mod keymap;
pub mod mouse;
