//! REST models of the ordering domain.

use vstd::prelude::*;
use crate::time::UtcDateTime;

verus! {

/// One line of an order: what is bought, at which price, how many.
pub struct LineItem {
    pub sku_code: Seq<char>,
    pub price: i64,
    pub quantity: i64,
}

/// A stored order as a mathematical record.
pub struct OrderRecord {
    pub order_id: i64,
    pub order_number: Seq<char>,
    pub created_at: Option<UtcDateTime>,
    pub items: Seq<LineItem>,
}

/// One line of an order.
#[derive(Debug, Clone, PartialEq, Eq)]
pub struct OrderLineItems {
    pub sku_code: String,
    pub price: i64,
    pub quantity: i64,
}

impl View for OrderLineItems {
    type V = LineItem;

    open spec fn view(&self) -> LineItem {
        LineItem { sku_code: self.sku_code@, price: self.price, quantity: self.quantity }
    }
}

/// The lines of `items`, in their order.
pub open spec fn line_items(items: Seq<OrderLineItems>) -> Seq<LineItem> {
    items.map_values(|item: OrderLineItems| item@)
}

/// Body of an order placement: the lines to order.
#[derive(Debug, Clone, PartialEq, Eq)]
pub struct OrderRequest {
    pub items: Vec<OrderLineItems>,
}

impl View for OrderRequest {
    type V = Seq<LineItem>;

    open spec fn view(&self) -> Seq<LineItem> {
        line_items(self.items@)
    }
}

/// Body of a successful placement: the number the backend assigned.
#[derive(Debug, Clone, PartialEq, Eq)]
pub struct OrderResponse {
    pub order_number: String,
}

impl View for OrderResponse {
    type V = Seq<char>;

    open spec fn view(&self) -> Seq<char> {
        self.order_number@
    }
}

/// Answer to a delete request: whether the backend removed anything.
#[derive(Debug, Clone, PartialEq, Eq)]
pub struct DeleteOrderResponse {
    pub is_deleted: bool,
}

impl View for DeleteOrderResponse {
    type V = bool;

    open spec fn view(&self) -> bool {
        self.is_deleted
    }
}

/// A stored order as the gateway returns it.
#[derive(Debug, Clone, PartialEq, Eq)]
pub struct OrderEntityResponse {
    pub order_id: i64,
    pub order_number: String,
    pub created_at: Option<UtcDateTime>,
    pub items: Vec<OrderLineItems>,
}

impl View for OrderEntityResponse {
    type V = OrderRecord;

    open spec fn view(&self) -> OrderRecord {
        OrderRecord {
            order_id: self.order_id,
            order_number: self.order_number@,
            created_at: self.created_at,
            items: line_items(self.items@),
        }
    }
}

/// The records of `orders`, in their order.
pub open spec fn order_records(orders: Seq<OrderEntityResponse>) -> Seq<OrderRecord> {
    orders.map_values(|order: OrderEntityResponse| order@)
}

} // verus!
