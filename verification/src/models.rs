//! REST-shaped request and response models, one module per backend domain.

pub mod auth_models;
pub mod order_models;
pub mod product_models;
