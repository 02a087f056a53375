//! The interceptors that wrap a route's handler.

pub mod jwt_validator;
pub mod metrics;
