//! Which decision cache the server uses, and its settings.

use vstd::prelude::*;

verus! {

/// The kind of decision cache.
#[derive(Debug, Clone, Copy, PartialEq, Eq, Structural)]
pub enum CacheStore {
    InMemory,
    Redis,
    /// No cache (the default, and what an unknown name means; `none` in
    /// the configuration).
    Null,
}

/// Configuration of the decision cache.
#[derive(Debug, Clone)]
pub struct CacheConfig {
    /// Seconds an entry lives (default 3600).
    pub ttl: u32,
    /// The kind of cache (default none).
    pub store: CacheStore,
    pub memory: InMemoryConfig,
    pub redis: RedisConfig,
}

/// Configuration of the in-memory cache.
#[derive(Debug, Clone)]
pub struct InMemoryConfig {
    /// Capacity in MiB (default 128).
    pub capacity: usize,
}

/// Configuration of the Redis cache.
#[derive(Debug, Clone)]
pub struct RedisConfig {
    /// Connection string (default empty).
    pub url: String,
}

} // verus!
