//! A typed client core for the Modrinth REST API: identifier validation,
//! request URL construction, rate-limit decisions, the strict field check of
//! decoded records, and the version data model.

pub mod error;
pub mod validate;
pub mod structures;
pub mod query;
pub mod endpoint;
pub mod request;
pub mod schema;
