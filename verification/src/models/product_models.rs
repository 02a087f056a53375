//! REST models of the catalog domain.

use vstd::prelude::*;

verus! {

/// What a client submits to store a product.
pub struct ProductDraft {
    pub name: Seq<char>,
    pub description: Seq<char>,
    pub currency: Seq<char>,
    pub price: i64,
}

/// A stored product: the draft and the identifier the backend assigned.
pub struct ProductRecord {
    pub id: Seq<char>,
    pub name: Seq<char>,
    pub description: Seq<char>,
    pub currency: Seq<char>,
    pub price: i64,
}

/// Body of a request to store a product.
#[derive(Debug, Clone, PartialEq, Eq)]
pub struct ProductRequest {
    pub name: String,
    pub description: String,
    pub currency: String,
    pub price: i64,
}

impl View for ProductRequest {
    type V = ProductDraft;

    open spec fn view(&self) -> ProductDraft {
        ProductDraft {
            name: self.name@,
            description: self.description@,
            currency: self.currency@,
            price: self.price,
        }
    }
}

/// A product as the gateway returns it.
#[derive(Debug, Clone, PartialEq, Eq)]
pub struct ProductResponse {
    pub id: String,
    pub name: String,
    pub description: String,
    pub currency: String,
    pub price: i64,
}

impl View for ProductResponse {
    type V = ProductRecord;

    open spec fn view(&self) -> ProductRecord {
        ProductRecord {
            id: self.id@,
            name: self.name@,
            description: self.description@,
            currency: self.currency@,
            price: self.price,
        }
    }
}

/// The records of `products`, in their order.
pub open spec fn product_records(products: Seq<ProductResponse>) -> Seq<ProductRecord> {
    products.map_values(|product: ProductResponse| product@)
}

/// Answer to a delete request: whether the backend removed anything.
#[derive(Debug, Clone, PartialEq, Eq)]
pub struct DeleteProductResponse {
    pub is_deleted: bool,
}

impl View for DeleteProductResponse {
    type V = bool;

    open spec fn view(&self) -> bool {
        self.is_deleted
    }
}

} // verus!
