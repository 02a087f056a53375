//! Wire-shaped messages of the backend RPC services, one module per domain.

pub mod auth;
pub mod order;
pub mod product;
