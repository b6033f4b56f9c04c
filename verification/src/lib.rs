//! A bounded in-memory `key -> value` store, the core of the `umoka`
//! Nushell plugin, backed by a micro-moka cache.

pub mod cache;
pub mod commands;
pub mod laws;
pub mod store;
pub mod value;

pub use store::{Store, StoreStats, DEFAULT_MAX_CAPACITY};
pub use value::{CarriedValue, StoredValue};
