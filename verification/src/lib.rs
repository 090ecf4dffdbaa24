//! Policy decision point: process management for the Python engine and the
//! request logic of the authorization server, with verified contracts.

pub mod clock;
pub mod text;
pub mod strmap;
pub mod engine;
pub mod server;
