//! The decision cache: its errors, the cache that keeps nothing, and the
//! choice of a cache from the configuration.

use crate::server::config::cache::{CacheConfig, CacheStore};
use vstd::prelude::*;

verus! {

#[verifier::external_type_specification]
#[verifier::external_body]
pub struct ExJsonError(serde_json::Error);

/// A failure of a cache operation.
#[derive(Debug)]
pub enum CacheError {
    /// A value could not be serialised.
    Serialization(serde_json::Error),
    /// A stored value could not be read back.
    Deserialization(String),
    /// The Redis server failed.
    Redis(String),
    /// The cache is misconfigured.
    Config(String),
}

/// A cache that keeps nothing: every read misses and every write succeeds.
#[derive(Debug, Clone, Copy)]
pub struct NullCache;

impl NullCache {
    /// The cache that keeps nothing.
    pub fn new() -> (c: NullCache) {
        NullCache
    }

    /// Keeps nothing.
    pub fn set(&self, _key: &str, _value: &str) -> (r: Result<(), CacheError>)
        ensures
            r is Ok,
    {
        Ok(())
    }

    /// Finds nothing.
    pub fn get(&self, _key: &str) -> (r: Result<Option<String>, CacheError>)
        ensures
            r matches Ok(v) && v is None,
    {
        Ok(None)
    }

    /// Always healthy.
    pub fn health_check(&self) -> (r: Result<(), String>)
        ensures
            r is Ok,
    {
        Ok(())
    }

    /// Has nothing to delete.
    pub fn delete(&self, _key: &str) -> (r: Result<(), CacheError>)
        ensures
            r is Ok,
    {
        Ok(())
    }
}

impl Default for NullCache {
    fn default() -> (c: NullCache) {
        NullCache::new()
    }
}

/// The cache to build, with its settings.
#[derive(Debug, Clone)]
pub enum CacheSelection {
    /// An in-memory cache whose entries live `ttl_secs`, holding at most
    /// `capacity_bytes` bytes of values.
    InMemory { ttl_secs: u64, capacity_bytes: u64 },
    /// A Redis cache at `url` whose entries live `ttl_secs`.
    Redis { url: String, ttl_secs: u64 },
    /// No cache.
    Null,
}

/// The bytes in a capacity given in MiB.
pub open spec fn capacity_in_bytes(capacity_mib: usize) -> int {
    capacity_mib * 1024 * 1024
}

/// The cache that the configuration asks for. A Redis cache needs a URL.
pub fn create_cache(config: &CacheConfig) -> (r: Result<CacheSelection, CacheError>)
    requires
        config.store == CacheStore::InMemory ==> capacity_in_bytes(config.memory.capacity)
            <= usize::MAX,
    ensures
        config.store == CacheStore::InMemory ==> (r matches Ok(CacheSelection::InMemory {
            ttl_secs,
            capacity_bytes,
        }) && ttl_secs == config.ttl && capacity_bytes == capacity_in_bytes(
            config.memory.capacity,
        )),
        config.store == CacheStore::Redis && config.redis.url@.len() == 0 ==> (r matches Err(
            CacheError::Config(m),
        ) && m@ == "Redis URL is required for Redis cache"@),
        config.store == CacheStore::Redis && config.redis.url@.len() > 0 ==> (r matches Ok(
            CacheSelection::Redis { url, ttl_secs },
        ) && url == config.redis.url && ttl_secs == config.ttl),
        config.store == CacheStore::Null ==> r matches Ok(CacheSelection::Null),
{
    match config.store {
        CacheStore::InMemory => {
            let bytes = config.memory.capacity * 1024 * 1024;
            Ok(CacheSelection::InMemory { ttl_secs: config.ttl as u64, capacity_bytes: bytes as u64 })
        },
        CacheStore::Redis => {
            if config.redis.url.as_str().unicode_len() == 0 {
                return Err(
                    CacheError::Config("Redis URL is required for Redis cache".to_owned()),
                );
            }
            Ok(CacheSelection::Redis { url: config.redis.url.clone(), ttl_secs: config.ttl as u64 })
        },
        CacheStore::Null => Ok(CacheSelection::Null),
    }
}

} // verus!
