//! The backend proxies: for each remote operation the translation of the
//! REST request into the wire request, and of the backend's answer into the
//! REST response or the gateway's error.

pub mod auth_service;
pub mod order_service;
pub mod product_service;
