//! Where the OPA service listens.

use vstd::prelude::*;

verus! {

/// Configuration of the OPA service.
#[derive(Debug, Clone)]
pub struct OpaConfig {
    /// URL of the service (default `http://localhost:8181`).
    pub url: String,
    /// Timeout of OPA client queries in seconds (default 1).
    pub client_query_timeout: u64,
}

} // verus!
