//! Where the Horizon service listens and how it is supervised.

use crate::text::{concat2, decimal, starts_with, u64_to_decimal};
use vstd::prelude::*;

verus! {

/// Configuration of the Horizon service.
#[derive(Debug, Clone)]
pub struct HorizonConfig {
    /// Host name (default `0.0.0.0`).
    pub host: String,
    /// Port (default 7001).
    pub port: u16,
    /// Timeout of Horizon client queries in seconds (default 60).
    pub client_timeout: u64,
    /// Python interpreter that runs Horizon (default `python3`).
    pub python_path: String,
    /// Timeout of a health check in seconds (default 1).
    pub health_check_timeout: u64,
    /// Seconds between health checks (default 5).
    pub health_check_interval: u64,
    /// Consecutive failed health checks before a restart (default 12).
    pub health_check_failure_threshold: u32,
    /// Seconds before the first health check (default 5).
    pub startup_delay: u64,
    /// Seconds between restart attempts (default 1).
    pub restart_interval: u64,
    /// Seconds the service has to terminate (default 30).
    pub termination_timeout: u64,
}

/// The URL of `path` on the Horizon service: `http://host:port` and the
/// path, with a `/` between them unless the path starts with one.
pub open spec fn horizon_url(host: Seq<char>, port: u16, path: Seq<char>) -> Seq<char> {
    if "/"@.is_prefix_of(path) {
        "http://"@ + host + ":"@ + decimal(port as nat) + path
    } else {
        "http://"@ + host + ":"@ + decimal(port as nat) + "/"@ + path
    }
}

impl HorizonConfig {
    /// The URL of `path` on the Horizon service.
    pub fn get_url(&self, path: &str) -> (url: String)
        ensures
            url@ == horizon_url(self.host@, self.port, path@),
    {
        let base = concat2("http://", self.host.as_str()).concat(":").concat(
            u64_to_decimal(self.port as u64).as_str(),
        );
        if starts_with(path, "/") {
            base.concat(path)
        } else {
            base.concat("/").concat(path)
        }
    }
}

} // verus!
