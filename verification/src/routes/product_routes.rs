//! The handlers of the catalog routes.

use vstd::prelude::*;
use crate::error::{reply_view, BackendStatus};
use crate::models::product_models::{product_records, DeleteProductResponse, ProductRecord, ProductResponse};
use crate::routes::{handle_result, mapped, Reply, ReplyView};
use crate::services::product_service::{
    delete_product_outcome,
    product_list_outcome,
    save_product_outcome,
    ProductService,
};
use crate::wire::product;

verus! {

/// The reply that lists products, as a mathematical value.
pub open spec fn listing(answer: Reply<Vec<ProductResponse>>) -> ReplyView<Seq<ProductRecord>> {
    match answer {
        Reply::Success { status, body } => ReplyView::Success {
            status,
            body: product_records(body@),
        },
        Reply::Failure { status, message } => ReplyView::Failure { status, message: message@ },
    }
}

/// Answers a request to store a product with the backend's reply.
pub fn save_product<F>(
    service: &ProductService,
    reply: Result<product::ProductResponse, BackendStatus>,
    log_f: F,
) -> (answer: Reply<ProductResponse>) where F: Fn(&ProductResponse)
    requires
        forall|value: ProductResponse| call_requires(log_f, (&value,)),
    ensures
        answer@ == mapped(save_product_outcome(reply_view(reply))),
{
    handle_result(service.save_product(reply), log_f)
}

/// Answers a request to list the products with the backend's reply.
pub fn get_list_products<F>(
    service: &ProductService,
    reply: Result<product::ProductList, BackendStatus>,
    log_f: F,
) -> (answer: Reply<Vec<ProductResponse>>) where F: Fn(&Vec<ProductResponse>)
    requires
        forall|value: Vec<ProductResponse>| call_requires(log_f, (&value,)),
    ensures
        listing(answer) == mapped(product_list_outcome(reply_view(reply))),
{
    handle_result(service.get_product_list(reply), log_f)
}

/// Answers a request to delete the product `product_id` with the backend's
/// reply. A backend that deleted nothing is answered with 200, as one that
/// deleted the product is.
pub fn delete_product<F>(
    service: &ProductService,
    product_id: &str,
    reply: Result<product::DeleteProductResponse, BackendStatus>,
    log_f: F,
) -> (answer: Reply<DeleteProductResponse>) where F: Fn(&DeleteProductResponse)
    requires
        forall|value: DeleteProductResponse| call_requires(log_f, (&value,)),
    ensures
        answer@ == mapped(delete_product_outcome(product_id@, reply_view(reply))),
{
    handle_result(service.delete_product(product_id, reply), log_f)
}

} // verus!
