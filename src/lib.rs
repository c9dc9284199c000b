//! A URL shortener's redirect core: a fixed-slot, hash-indexed cache of
//! short-link records and the cache-aside steps that resolve a short key.
pub mod cache;
pub mod models;
pub mod resolver;
