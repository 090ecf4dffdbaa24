pub mod errors;
pub mod evaluation;
pub mod evaluations;
pub mod schema;
pub mod search;
