//! Client-side core of a tabular sports-statistics API: query validation,
//! result-table location inside the service's JSON response, and schema-driven
//! decoding of rows into typed records.
//!
//! The HTTP transport itself is an external collaborator; this crate holds the
//! logic around it: what a well-formed query is, which result table belongs to
//! each query kind, and what record each row decodes to.

pub mod err;
pub mod json;
pub mod parse;
pub mod queries;
pub mod scrape;
pub mod stats;
