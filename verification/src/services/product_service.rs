//! The proxy of the catalog backend.

use vstd::prelude::*;
use crate::error::{backend_failure, outcome_view, reply_view, BackendStatus, Error, ErrorView, StatusView};
use crate::models::product_models::{
    product_records,
    DeleteProductResponse,
    ProductRecord,
    ProductRequest,
    ProductResponse,
};
use crate::wire::product;

verus! {

/// What storing a product returns for the backend's answer.
pub open spec fn save_product_outcome(reply: Result<ProductRecord, StatusView>) -> Result<
    ProductRecord,
    ErrorView,
> {
    match reply {
        Ok(record) => Ok(record),
        Err(status) => Err(backend_failure("save product failed"@, status)),
    }
}

/// What listing the products returns for the backend's answer.
pub open spec fn product_list_outcome(reply: Result<Seq<ProductRecord>, StatusView>) -> Result<
    Seq<ProductRecord>,
    ErrorView,
> {
    match reply {
        Ok(records) => Ok(records),
        Err(status) => Err(backend_failure("get product list failed"@, status)),
    }
}

/// The name of the call that deletes the product `product_id`.
pub open spec fn delete_product_operation(product_id: Seq<char>) -> Seq<char> {
    "delete product with product_id = "@ + product_id + " failed"@
}

/// What deleting the product `product_id` returns for the backend's answer.
pub open spec fn delete_product_outcome(product_id: Seq<char>, reply: Result<bool, StatusView>) -> Result<
    bool,
    ErrorView,
> {
    match reply {
        Ok(is_deleted) => Ok(is_deleted),
        Err(status) => Err(backend_failure(delete_product_operation(product_id), status)),
    }
}

/// The view of a list of REST products.
pub open spec fn list_view(outcome: Result<Vec<ProductResponse>, Error>) -> Result<
    Seq<ProductRecord>,
    ErrorView,
> {
    match outcome {
        Ok(products) => Ok(product_records(products@)),
        Err(error) => Err(error@),
    }
}

/// The proxy of the catalog backend at `endpoint`.
#[derive(Debug, Clone)]
pub struct ProductService {
    pub endpoint: String,
}

impl ProductService {
    /// A proxy for the backend at `product_endpoint`.
    pub fn new(product_endpoint: String) -> (service: Self)
        ensures
            service.endpoint == product_endpoint,
    {
        ProductService { endpoint: product_endpoint }
    }

    /// The wire request that stores a product: the same four fields.
    pub fn save_product_request(&self, product_request: ProductRequest) -> (request:
        product::ProductRequest)
        ensures
            request@ == product_request@,
    {
        product::ProductRequest {
            name: product_request.name,
            description: product_request.description,
            currency: product_request.currency,
            price: product_request.price,
        }
    }

    /// Translates the backend's answer to storing a product.
    pub fn save_product(&self, reply: Result<product::ProductResponse, BackendStatus>) -> (outcome:
        Result<ProductResponse, Error>)
        ensures
            outcome_view(outcome) == save_product_outcome(reply_view(reply)),
    {
        match reply {
            Ok(stored) => Ok(ProductService::map_to_product(stored)),
            Err(status) => Err(
                Error::backend_failure(String::from_str("save product failed"), status),
            ),
        }
    }

    /// The wire request that lists the products.
    pub fn get_product_list_request(&self) -> (request: product::Empty)
        ensures
            request == (product::Empty {  }),
    {
        product::Empty {  }
    }

    /// Translates the backend's answer to listing the products: the same
    /// products in the same order.
    pub fn get_product_list(&self, reply: Result<product::ProductList, BackendStatus>) -> (outcome:
        Result<Vec<ProductResponse>, Error>)
        ensures
            list_view(outcome) == product_list_outcome(reply_view(reply)),
    {
        match reply {
            Ok(list) => {
                let mut products: Vec<ProductResponse> = Vec::new();
                let mut i: usize = 0;
                while i < list.products.len()
                    invariant
                        i <= list.products.len(),
                        products.len() == i,
                        forall|j: int| 0 <= j < i ==> (#[trigger] products@[j])@ == list.products@[j]@,
                    decreases list.products.len() - i,
                {
                    let stored = &list.products[i];
                    products.push(
                        ProductService::map_to_product(
                            product::ProductResponse {
                                id: stored.id.clone(),
                                name: stored.name.clone(),
                                description: stored.description.clone(),
                                current: stored.current.clone(),
                                price: stored.price,
                            },
                        ),
                    );
                    i += 1;
                }
                assert(product_records(products@) =~= list@);
                Ok(products)
            },
            Err(status) => Err(
                Error::backend_failure(String::from_str("get product list failed"), status),
            ),
        }
    }

    /// The wire request that deletes the product `product_id`.
    pub fn delete_product_request(&self, product_id: &str) -> (request: product::DeleteProductRequest)
        ensures
            request@ == product_id@,
    {
        product::DeleteProductRequest { id: String::from_str(product_id) }
    }

    /// Translates the backend's answer to deleting the product `product_id`.
    /// That the backend deleted nothing is an answer, not an error.
    pub fn delete_product(
        &self,
        product_id: &str,
        reply: Result<product::DeleteProductResponse, BackendStatus>,
    ) -> (outcome: Result<DeleteProductResponse, Error>)
        ensures
            outcome_view(outcome) == delete_product_outcome(product_id@, reply_view(reply)),
    {
        match reply {
            Ok(answer) => Ok(DeleteProductResponse { is_deleted: answer.is_deleted }),
            Err(status) => {
                let mut operation = String::from_str("delete product with product_id = ");
                operation.append(product_id);
                operation.append(" failed");
                Err(Error::backend_failure(operation, status))
            },
        }
    }

    /// The REST shape of a stored product: the backend's `current` is the
    /// product's currency.
    pub fn map_to_product(product: product::ProductResponse) -> (response: ProductResponse)
        ensures
            response@ == product@,
    {
        ProductResponse {
            id: product.id,
            name: product.name,
            description: product.description,
            currency: product.current,
            price: product.price,
        }
    }
}

} // verus!
