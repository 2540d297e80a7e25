pub mod decimal;
pub mod error;
pub mod profanity;
pub mod routes;
pub mod store;
pub mod types;
