//! Messages of the ordering backend.

use vstd::prelude::*;
use crate::models::order_models::LineItem;
use crate::time::Timestamp;

verus! {

/// One line of an order.
#[derive(Debug, Clone, PartialEq, Eq)]
pub struct OrderLineItems {
    pub sku_code: String,
    pub price: i64,
    pub quantity: i64,
}

impl View for OrderLineItems {
    type V = LineItem;

    open spec fn view(&self) -> LineItem {
        LineItem { sku_code: self.sku_code@, price: self.price, quantity: self.quantity }
    }
}

/// The lines of `items`, in their order.
pub open spec fn line_items(items: Seq<OrderLineItems>) -> Seq<LineItem> {
    items.map_values(|item: OrderLineItems| item@)
}

/// Places an order.
#[derive(Debug, Clone, PartialEq, Eq)]
pub struct OrderRequest {
    pub items: Vec<OrderLineItems>,
}

impl View for OrderRequest {
    type V = Seq<LineItem>;

    open spec fn view(&self) -> Seq<LineItem> {
        line_items(self.items@)
    }
}

/// The number the backend assigned to a placed order.
#[derive(Debug, Clone, PartialEq, Eq)]
pub struct OrderResponse {
    pub order_number: String,
}

impl View for OrderResponse {
    type V = Seq<char>;

    open spec fn view(&self) -> Seq<char> {
        self.order_number@
    }
}

/// A request that carries nothing.
#[derive(Debug, Clone, Copy, PartialEq, Eq)]
pub struct Empty {
}

/// A stored order as a mathematical record.
pub struct StoredOrder {
    pub order_id: i64,
    pub order_number: Seq<char>,
    pub created_at: Option<Timestamp>,
    pub items: Seq<LineItem>,
}

/// A stored order as the backend sends it.
#[derive(Debug, Clone, PartialEq, Eq)]
pub struct OrderEntity {
    pub order_id: i64,
    pub order_number: String,
    pub created_at: Option<Timestamp>,
    pub items: Vec<OrderLineItems>,
}

impl View for OrderEntity {
    type V = StoredOrder;

    open spec fn view(&self) -> StoredOrder {
        StoredOrder {
            order_id: self.order_id,
            order_number: self.order_number@,
            created_at: self.created_at,
            items: line_items(self.items@),
        }
    }
}

/// The records of `orders`, in their order.
pub open spec fn stored_orders(orders: Seq<OrderEntity>) -> Seq<StoredOrder> {
    orders.map_values(|order: OrderEntity| order@)
}

/// All stored orders.
#[derive(Debug, Clone, PartialEq, Eq)]
pub struct OrderList {
    pub orders: Vec<OrderEntity>,
}

impl View for OrderList {
    type V = Seq<StoredOrder>;

    open spec fn view(&self) -> Seq<StoredOrder> {
        stored_orders(self.orders@)
    }
}

/// Deletes the order with the given identifier.
#[derive(Debug, Clone, Copy, PartialEq, Eq)]
pub struct DeleteOrderRequest {
    pub order_id: i64,
}

impl View for DeleteOrderRequest {
    type V = i64;

    open spec fn view(&self) -> i64 {
        self.order_id
    }
}

/// Whether the backend removed an order.
#[derive(Debug, Clone, Copy, PartialEq, Eq)]
pub struct DeleteOrderResponse {
    pub is_deleted: bool,
}

impl View for DeleteOrderResponse {
    type V = bool;

    open spec fn view(&self) -> bool {
        self.is_deleted
    }
}

} // verus!
