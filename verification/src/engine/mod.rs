pub mod args;
pub mod builder;
pub mod error;
pub mod health;
pub mod runner;
