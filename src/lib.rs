//! Typed access to a brokerage market-data service: building quote and
//! option-expiration lookups, and turning the service's loosely typed JSON
//! answers into a stable, fully optional record tree.
pub mod api;
pub mod details;
pub mod error;
pub mod expiry;
pub mod flexible;
pub mod fund;
pub mod json;
pub mod quote;
pub mod request;
