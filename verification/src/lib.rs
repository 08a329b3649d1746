//! Verified core of a typed client for the HyperLiquid info API.
//!
//! The crate holds everything the client decides without touching the
//! network: input validation, transport configuration, the request
//! envelopes of every endpoint, and the retry policy that classifies the
//! outcome of each HTTP attempt. Performing the requests is left to the
//! caller, who feeds what happened back into the policy.

pub mod client;
pub mod common;
pub mod config;
pub mod engine;
pub mod errors;
pub mod info;
pub mod retry;
pub mod text;
pub mod types;
