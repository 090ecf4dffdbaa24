pub mod cache;
pub mod horizon;
pub mod oauth;
pub mod opa;
pub mod trino_authz;
