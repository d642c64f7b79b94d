//! Physics bookkeeping that needs no floating point: body classes, the
//! integrator choice and the Barnes-Hut tree shape.

pub mod barnes_hut;
pub mod body;
pub mod integrator;
