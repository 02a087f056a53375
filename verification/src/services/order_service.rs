//! The proxy of the ordering backend.

use vstd::prelude::*;
use crate::error::{backend_failure, outcome_view, reply_view, BackendStatus, Error, ErrorView, StatusView};
use crate::models::order_models::{
    order_records,
    DeleteOrderResponse,
    LineItem,
    OrderEntityResponse,
    OrderLineItems,
    OrderRecord,
    OrderRequest,
    OrderResponse,
};
use crate::text::{signed_decimal, signed_decimal_string};
use crate::time::{calendar_from_timestamp, datetime_of, representable, Timestamp, UtcDateTime};
use crate::wire::order;
use crate::wire::order::StoredOrder;

verus! {

/// What placing an order returns for the backend's answer.
pub open spec fn place_order_outcome(reply: Result<Seq<char>, StatusView>) -> Result<
    Seq<char>,
    ErrorView,
> {
    match reply {
        Ok(order_number) => Ok(order_number),
        Err(status) => Err(backend_failure("save order failed"@, status)),
    }
}

/// The creation time of a stored order as a calendar date and time; absent
/// where the backend sent none or one that has no calendar date.
pub open spec fn created_at_of(created_at: Option<Timestamp>) -> Option<UtcDateTime> {
    match created_at {
        Some(ts) => datetime_of(ts),
        None => None,
    }
}

/// The REST record of a stored order.
pub open spec fn order_record(stored: StoredOrder) -> OrderRecord {
    OrderRecord {
        order_id: stored.order_id,
        order_number: stored.order_number,
        created_at: created_at_of(stored.created_at),
        items: stored.items,
    }
}

/// What listing the orders returns for the backend's answer.
pub open spec fn order_list_outcome(reply: Result<Seq<StoredOrder>, StatusView>) -> Result<
    Seq<OrderRecord>,
    ErrorView,
> {
    match reply {
        Ok(orders) => Ok(orders.map_values(|stored: StoredOrder| order_record(stored))),
        Err(status) => Err(backend_failure("get order list failed"@, status)),
    }
}

/// The name of the call that deletes the order `order_id`.
pub open spec fn delete_order_operation(order_id: i64) -> Seq<char> {
    "delete order with order_id = "@ + signed_decimal(order_id as int) + " failed"@
}

/// What deleting the order `order_id` returns for the backend's answer.
pub open spec fn delete_order_outcome(order_id: i64, reply: Result<bool, StatusView>) -> Result<
    bool,
    ErrorView,
> {
    match reply {
        Ok(is_deleted) => Ok(is_deleted),
        Err(status) => Err(backend_failure(delete_order_operation(order_id), status)),
    }
}

/// The view of a list of REST orders.
pub open spec fn list_view(outcome: Result<Vec<OrderEntityResponse>, Error>) -> Result<
    Seq<OrderRecord>,
    ErrorView,
> {
    match outcome {
        Ok(orders) => Ok(order_records(orders@)),
        Err(error) => Err(error@),
    }
}

/// The proxy of the ordering backend at `endpoint`.
#[derive(Debug, Clone)]
pub struct OrderService {
    pub endpoint: String,
}

impl OrderService {
    /// A proxy for the backend at `order_endpoint`.
    pub fn new(order_endpoint: String) -> (service: Self)
        ensures
            service.endpoint == order_endpoint,
    {
        OrderService { endpoint: order_endpoint }
    }

    /// The wire request that places an order: the same lines in the same
    /// order, each with the same three fields.
    pub fn place_order_request(&self, order_request: &OrderRequest) -> (request: order::OrderRequest)
        ensures
            request@ == order_request@,
    {
        let mut items: Vec<order::OrderLineItems> = Vec::new();
        let mut i: usize = 0;
        while i < order_request.items.len()
            invariant
                i <= order_request.items.len(),
                items.len() == i,
                forall|j: int| 0 <= j < i ==> (#[trigger] items@[j])@ == order_request.items@[j]@,
            decreases order_request.items.len() - i,
        {
            let item = &order_request.items[i];
            items.push(
                order::OrderLineItems {
                    sku_code: item.sku_code.clone(),
                    price: item.price,
                    quantity: item.quantity,
                },
            );
            i += 1;
        }
        let request = order::OrderRequest { items };
        assert(request@ =~= order_request@);
        request
    }

    /// Translates the backend's answer to placing an order: the number that
    /// the backend assigned, wrapped as the response body.
    pub fn place_order(&self, reply: Result<order::OrderResponse, BackendStatus>) -> (outcome: Result<
        OrderResponse,
        Error,
    >)
        ensures
            outcome_view(outcome) == place_order_outcome(reply_view(reply)),
    {
        match reply {
            Ok(answer) => Ok(OrderResponse { order_number: answer.order_number }),
            Err(status) => Err(Error::backend_failure(String::from_str("save order failed"), status)),
        }
    }

    /// The wire request that lists the orders.
    pub fn get_order_list_request(&self) -> (request: order::Empty)
        ensures
            request == (order::Empty {  }),
    {
        order::Empty {  }
    }

    /// The REST lines of the lines of a stored order.
    fn map_to_items(items: &Vec<order::OrderLineItems>) -> (lines: Vec<OrderLineItems>)
        ensures
            crate::models::order_models::line_items(lines@) == order::line_items(items@),
    {
        let mut lines: Vec<OrderLineItems> = Vec::new();
        let mut i: usize = 0;
        while i < items.len()
            invariant
                i <= items.len(),
                lines.len() == i,
                forall|j: int| 0 <= j < i ==> (#[trigger] lines@[j])@ == items@[j]@,
            decreases items.len() - i,
        {
            let item = &items[i];
            lines.push(
                OrderLineItems {
                    sku_code: item.sku_code.clone(),
                    price: item.price,
                    quantity: item.quantity,
                },
            );
            i += 1;
        }
        assert(crate::models::order_models::line_items(lines@) =~= order::line_items(items@));
        lines
    }

    /// Translates the backend's answer to listing the orders: the same
    /// orders in the same order, each creation time as a calendar date and
    /// time.
    pub fn get_order_list(&self, reply: Result<order::OrderList, BackendStatus>) -> (outcome: Result<
        Vec<OrderEntityResponse>,
        Error,
    >)
        ensures
            list_view(outcome) == order_list_outcome(reply_view(reply)),
    {
        match reply {
            Ok(list) => {
                let mut orders: Vec<OrderEntityResponse> = Vec::new();
                let mut i: usize = 0;
                while i < list.orders.len()
                    invariant
                        i <= list.orders.len(),
                        orders.len() == i,
                        forall|j: int|
                            0 <= j < i ==> (#[trigger] orders@[j])@ == order_record(list.orders@[j]@),
                    decreases list.orders.len() - i,
                {
                    let stored = &list.orders[i];
                    let created_at = match stored.created_at {
                        Some(ts) => OrderService::timestamp_to_datetime(ts),
                        None => None,
                    };
                    orders.push(
                        OrderEntityResponse {
                            order_id: stored.order_id,
                            order_number: stored.order_number.clone(),
                            created_at,
                            items: OrderService::map_to_items(&stored.items),
                        },
                    );
                    i += 1;
                }
                assert(order_records(orders@) =~= list@.map_values(
                    |stored: StoredOrder| order_record(stored),
                ));
                Ok(orders)
            },
            Err(status) => Err(
                Error::backend_failure(String::from_str("get order list failed"), status),
            ),
        }
    }

    /// The wire request that deletes the order `order_id`.
    pub fn delete_order_request(&self, order_id: i64) -> (request: order::DeleteOrderRequest)
        ensures
            request@ == order_id,
    {
        order::DeleteOrderRequest { order_id }
    }

    /// Translates the backend's answer to deleting the order `order_id`.
    /// That the backend deleted nothing is an answer, not an error.
    pub fn delete_order(&self, order_id: i64, reply: Result<order::DeleteOrderResponse, BackendStatus>) -> (outcome:
        Result<DeleteOrderResponse, Error>)
        ensures
            outcome_view(outcome) == delete_order_outcome(order_id, reply_view(reply)),
    {
        match reply {
            Ok(answer) => Ok(DeleteOrderResponse { is_deleted: answer.is_deleted }),
            Err(status) => {
                let mut operation = String::from_str("delete order with order_id = ");
                operation.append(signed_decimal_string(order_id).as_str());
                operation.append(" failed");
                Err(Error::backend_failure(operation, status))
            },
        }
    }

    /// Converts a backend timestamp into a calendar date and time.
    ///
    /// A timestamp outside the range of calendar dates, or with a nanosecond
    /// part that no second has, converts to `None`.
    pub fn timestamp_to_datetime(ts: Timestamp) -> (r: Option<UtcDateTime>)
        ensures
            r == datetime_of(ts),
            r is Some <==> representable(ts.seconds as int, ts.nanos as int),
            r matches Some(moment) ==> moment.wf(),
    {
        if ts.nanos < 0 {
            None
        } else {
            calendar_from_timestamp(ts.seconds, ts.nanos as u32)
        }
    }
}

} // verus!
