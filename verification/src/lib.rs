//! Request interception and backend-proxy core of an API gateway.
//!
//! The crate holds the decisions of the gateway as verified functions on plain
//! values: credential verification, the interceptor chain, telemetry records,
//! the translation between REST and wire shapes, and the mapping of service
//! results to HTTP replies. Network and runtime plumbing live outside of it.

pub mod chain;
pub mod config;
pub mod error;
pub mod middleware;
pub mod models;
pub mod routes;
pub mod services;
pub mod text;
pub mod time;
pub mod wire;
