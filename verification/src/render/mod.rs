//! Rendering helpers that decide rather than draw: colors, trails, heatmap cells, canvas priorities.

pub mod camera;
pub mod canvas;
pub mod colors;
pub mod grid;
pub mod heatmap;
pub mod hud;
pub mod kitty;
pub mod layout;
pub mod trails;
