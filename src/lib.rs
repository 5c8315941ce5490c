//! A caching reverse proxy core: cache-key normalization, an in-process
//! time-to-live store, and the per-request decisions of the handler.
pub mod config;
pub mod error;
pub mod key;
pub mod store;
pub mod handler;
pub mod memory;
pub mod laws;
