//! A minimal typed document store: a database handle owns one in-memory
//! value, mediates access to it, and delegates durability to a pluggable
//! storage adapter that must never expose a partially written payload.

pub mod adapters;
pub mod db;
pub mod error;

pub use crate::adapters::AdapterSync;
pub use crate::adapters::JsonFile;
pub use crate::adapters::JsonFileSync;
pub use crate::adapters::MemorySync;
pub use crate::db::SaberDBSync;
pub use crate::error::SaberError;
