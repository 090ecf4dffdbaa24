pub mod authn;
pub mod authzen;
pub mod cache;
pub mod config;
pub mod fallback;
pub mod headers;
pub mod health;
pub mod models;
pub mod oauth;
pub mod trino;
