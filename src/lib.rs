//! Retrieval and normalization of a canister's log records.
//!
//! The library holds the logic of the pipeline: how raw log records become
//! canonical ones, which endpoints need their trust root fetched, and in what
//! order the session is built and the query is made.

pub mod config;
pub mod logs;
pub mod session;
pub mod types;
