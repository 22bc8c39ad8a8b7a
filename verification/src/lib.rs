//! Client logic for querying a block-explorer HTTP API for the transactions
//! of a contract address and persisting the raw JSON response.
//!
//! The library holds everything that can be stated and checked: request-URL
//! construction, configuration validation, JSON decoding decisions, output
//! file naming, and the per-hash report lines. Network and file system access
//! live outside the library and hand plain values in and out.

pub mod errors;
pub mod flow;
pub mod json;
pub mod scanner;
