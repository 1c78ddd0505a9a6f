//! Fill engines: what matches orders against market data.

pub mod engine;
