//! Messages of the catalog backend.

use vstd::prelude::*;
use crate::models::product_models::{ProductDraft, ProductRecord};

verus! {

/// Stores a product.
#[derive(Debug, Clone, PartialEq, Eq)]
pub struct ProductRequest {
    pub name: String,
    pub description: String,
    pub currency: String,
    pub price: i64,
}

impl View for ProductRequest {
    type V = ProductDraft;

    open spec fn view(&self) -> ProductDraft {
        ProductDraft {
            name: self.name@,
            description: self.description@,
            currency: self.currency@,
            price: self.price,
        }
    }
}

/// A stored product. The backend calls the currency field `current`.
#[derive(Debug, Clone, PartialEq, Eq)]
pub struct ProductResponse {
    pub id: String,
    pub name: String,
    pub description: String,
    pub current: String,
    pub price: i64,
}

impl View for ProductResponse {
    type V = ProductRecord;

    open spec fn view(&self) -> ProductRecord {
        ProductRecord {
            id: self.id@,
            name: self.name@,
            description: self.description@,
            currency: self.current@,
            price: self.price,
        }
    }
}

/// The records of `products`, in their order.
pub open spec fn product_records(products: Seq<ProductResponse>) -> Seq<ProductRecord> {
    products.map_values(|product: ProductResponse| product@)
}

/// A request that carries nothing.
#[derive(Debug, Clone, Copy, PartialEq, Eq)]
pub struct Empty {
}

/// All stored products.
#[derive(Debug, Clone, PartialEq, Eq)]
pub struct ProductList {
    pub products: Vec<ProductResponse>,
}

impl View for ProductList {
    type V = Seq<ProductRecord>;

    open spec fn view(&self) -> Seq<ProductRecord> {
        product_records(self.products@)
    }
}

/// Deletes the product with the given identifier.
#[derive(Debug, Clone, PartialEq, Eq)]
pub struct DeleteProductRequest {
    pub id: String,
}

impl View for DeleteProductRequest {
    type V = Seq<char>;

    open spec fn view(&self) -> Seq<char> {
        self.id@
    }
}

/// Whether the backend removed a product.
#[derive(Debug, Clone, PartialEq, Eq)]
pub struct DeleteProductResponse {
    pub is_deleted: bool,
}

impl View for DeleteProductResponse {
    type V = bool;

    open spec fn view(&self) -> bool {
        self.is_deleted
    }
}

} // verus!
