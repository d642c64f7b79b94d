//! Pacing of the physics against the render loop.

pub mod scheduler;
