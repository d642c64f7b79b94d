//! NASA JPL HORIZONS: query strings, response parsing, cache paths and fetch planning.

pub mod cache;
pub mod client;
pub mod fetch;
pub mod parser;
