//! Caching.

pub mod advanced;
