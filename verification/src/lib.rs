//! Core logic of the building-management web service: record types,
//! identifier conversions, query text for batched lookups, the batch
//! loaders' indexing, resolver decisions and bearer-token parsing.

pub mod decimal;
pub mod ids;
pub mod records;
pub mod query;
pub mod auth;
pub mod loader;
pub mod graph;
