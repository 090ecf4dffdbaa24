pub mod crypto;
pub mod handlers;
pub mod models;
pub mod permit_client;
pub mod token_manager;
