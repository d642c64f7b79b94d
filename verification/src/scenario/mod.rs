//! Scenario files: color fields, units and classes, validation and generated bodies.

pub mod belt;
pub mod colors;
pub mod loader;
pub mod schema;
pub mod validate;
