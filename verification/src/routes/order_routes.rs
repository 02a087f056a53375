//! The handlers of the ordering routes.

use vstd::prelude::*;
use crate::error::{reply_view, BackendStatus};
use crate::models::order_models::{
    order_records,
    DeleteOrderResponse,
    OrderEntityResponse,
    OrderRecord,
    OrderResponse,
};
use crate::routes::{handle_result, mapped, Reply, ReplyView};
use crate::services::order_service::{
    delete_order_outcome,
    order_list_outcome,
    place_order_outcome,
    OrderService,
};
use crate::wire::order;

verus! {

/// The reply that lists orders, as a mathematical value.
pub open spec fn listing(answer: Reply<Vec<OrderEntityResponse>>) -> ReplyView<Seq<OrderRecord>> {
    match answer {
        Reply::Success { status, body } => ReplyView::Success { status, body: order_records(body@) },
        Reply::Failure { status, message } => ReplyView::Failure { status, message: message@ },
    }
}

/// Answers an order placement with the backend's reply.
pub fn place_order<F>(
    service: &OrderService,
    reply: Result<order::OrderResponse, BackendStatus>,
    log_f: F,
) -> (answer: Reply<OrderResponse>) where F: Fn(&OrderResponse)
    requires
        forall|value: OrderResponse| call_requires(log_f, (&value,)),
    ensures
        answer@ == mapped(place_order_outcome(reply_view(reply))),
{
    handle_result(service.place_order(reply), log_f)
}

/// Answers a request to list the orders with the backend's reply.
pub fn get_order_list<F>(
    service: &OrderService,
    reply: Result<order::OrderList, BackendStatus>,
    log_f: F,
) -> (answer: Reply<Vec<OrderEntityResponse>>) where F: Fn(&Vec<OrderEntityResponse>)
    requires
        forall|value: Vec<OrderEntityResponse>| call_requires(log_f, (&value,)),
    ensures
        listing(answer) == mapped(order_list_outcome(reply_view(reply))),
{
    handle_result(service.get_order_list(reply), log_f)
}

/// Answers a request to delete the order `order_id` with the backend's
/// reply. A backend that deleted nothing is answered with 200, as one that
/// deleted the order is.
pub fn delete_order<F>(
    service: &OrderService,
    order_id: i64,
    reply: Result<order::DeleteOrderResponse, BackendStatus>,
    log_f: F,
) -> (answer: Reply<DeleteOrderResponse>) where F: Fn(&DeleteOrderResponse)
    requires
        forall|value: DeleteOrderResponse| call_requires(log_f, (&value,)),
    ensures
        answer@ == mapped(delete_order_outcome(order_id, reply_view(reply))),
{
    handle_result(service.delete_order(order_id, reply), log_f)
}

} // verus!
