//! Terminal N-body simulator: the verified core (parsers, state machines, rules).

pub mod text;
pub mod error;
pub mod horizons;
pub mod scenario;
pub mod physics;
pub mod render;
pub mod input;
pub mod app;
pub mod bench;
pub mod cli;
pub mod time;
