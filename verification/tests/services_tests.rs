use api_gateway::error::{BackendStatus, Error};
use api_gateway::models::auth_models::{IsAdminResponse, LoginResponse, RegisterResponse};
use api_gateway::models::order_models::{
    DeleteOrderResponse, OrderEntityResponse, OrderLineItems, OrderRequest, OrderResponse,
};
use api_gateway::models::product_models::{DeleteProductResponse, ProductRequest, ProductResponse};
use api_gateway::services::auth_service::AuthService;
use api_gateway::services::order_service::OrderService;
use api_gateway::services::product_service::ProductService;
use api_gateway::time::{Timestamp, UtcDateTime};
use api_gateway::wire::{auth, order, product};

fn unavailable() -> BackendStatus {
    BackendStatus { code: 14, message: "backend down".to_string() }
}

fn failure(operation: &str) -> Error {
    Error::BackendFailure { operation: operation.to_string(), status: unavailable() }
}

fn auth_service() -> AuthService {
    AuthService::new("http://auth:50051".to_string())
}

fn order_service() -> OrderService {
    OrderService::new("http://order:50053".to_string())
}

fn product_service() -> ProductService {
    ProductService::new("http://product:50052".to_string())
}

#[test]
fn services_keep_their_endpoints() {
    assert_eq!(auth_service().endpoint, "http://auth:50051");
    assert_eq!(order_service().endpoint, "http://order:50053");
    assert_eq!(product_service().endpoint, "http://product:50052");
}

#[test]
fn is_admin_translates_request_and_answer() {
    let service = auth_service();
    assert_eq!(service.is_admin_request("u-7"), auth::IsAdminRequest { user_id: "u-7".to_string() });
    assert_eq!(
        service.is_admin(Ok(auth::IsAdminResponse { is_admin: true })),
        Ok(IsAdminResponse { is_admin: true })
    );
    assert_eq!(
        service.is_admin(Ok(auth::IsAdminResponse { is_admin: false })),
        Ok(IsAdminResponse { is_admin: false })
    );
    assert_eq!(service.is_admin(Err(unavailable())), Err(failure("is_admin failed")));
}

#[test]
fn register_translates_request_and_answer() {
    let service = auth_service();
    assert_eq!(
        service.register_request("a@b.c", "pw"),
        auth::RegisterRequest { email: "a@b.c".to_string(), password: "pw".to_string() }
    );
    assert_eq!(
        service.register(Ok(auth::RegisterResponse { user_id: "u-1".to_string() })),
        Ok(RegisterResponse { user_id: "u-1".to_string() })
    );
    assert_eq!(service.register(Err(unavailable())), Err(failure("register failed")));
}

#[test]
fn login_translates_request_and_answer() {
    let service = auth_service();
    assert_eq!(
        service.login_request("a@b.c", "pw"),
        auth::LoginRequest { email: "a@b.c".to_string(), password: "pw".to_string(), app_id: -1 }
    );
    assert_eq!(
        service.login("a@b.c", Ok(auth::LoginResponse { token: "t0k".to_string() })),
        Ok(LoginResponse { email: "a@b.c".to_string(), token: "t0k".to_string() })
    );
    assert_eq!(service.login("a@b.c", Err(unavailable())), Err(failure("login failed")));
}

#[test]
fn order_placement_submits_the_same_lines_in_the_same_order() {
    let service = order_service();
    let request = OrderRequest {
        items: vec![OrderLineItems { sku_code: "A1".to_string(), price: 500, quantity: 2 }],
    };
    assert_eq!(
        service.place_order_request(&request),
        order::OrderRequest {
            items: vec![order::OrderLineItems { sku_code: "A1".to_string(), price: 500, quantity: 2 }],
        }
    );
    let request = OrderRequest {
        items: vec![
            OrderLineItems { sku_code: "B2".to_string(), price: -1, quantity: 0 },
            OrderLineItems { sku_code: "A1".to_string(), price: i64::MAX, quantity: i64::MIN },
            OrderLineItems { sku_code: "B2".to_string(), price: 3, quantity: 4 },
        ],
    };
    assert_eq!(
        service.place_order_request(&request),
        order::OrderRequest {
            items: vec![
                order::OrderLineItems { sku_code: "B2".to_string(), price: -1, quantity: 0 },
                order::OrderLineItems {
                    sku_code: "A1".to_string(),
                    price: i64::MAX,
                    quantity: i64::MIN,
                },
                order::OrderLineItems { sku_code: "B2".to_string(), price: 3, quantity: 4 },
            ],
        }
    );
    assert_eq!(
        service.place_order_request(&OrderRequest { items: Vec::new() }),
        order::OrderRequest { items: Vec::new() }
    );
}

#[test]
fn order_placement_wraps_the_assigned_number() {
    let service = order_service();
    assert_eq!(
        service.place_order(Ok(order::OrderResponse { order_number: "ORD-17".to_string() })),
        Ok(OrderResponse { order_number: "ORD-17".to_string() })
    );
    assert_eq!(service.place_order(Err(unavailable())), Err(failure("save order failed")));
}

#[test]
fn order_list_keeps_orders_and_converts_creation_times() {
    let service = order_service();
    assert_eq!(service.get_order_list_request(), order::Empty {});
    let list = order::OrderList {
        orders: vec![
            order::OrderEntity {
                order_id: 1,
                order_number: "ORD-1".to_string(),
                created_at: Some(Timestamp { seconds: 1700000000, nanos: 0 }),
                items: vec![
                    order::OrderLineItems { sku_code: "A1".to_string(), price: 500, quantity: 2 },
                    order::OrderLineItems { sku_code: "B2".to_string(), price: 1, quantity: 1 },
                ],
            },
            order::OrderEntity {
                order_id: 2,
                order_number: "ORD-2".to_string(),
                created_at: None,
                items: Vec::new(),
            },
            order::OrderEntity {
                order_id: 3,
                order_number: "ORD-3".to_string(),
                created_at: Some(Timestamp { seconds: i64::MAX, nanos: 0 }),
                items: Vec::new(),
            },
        ],
    };
    assert_eq!(
        service.get_order_list(Ok(list)),
        Ok(vec![
            OrderEntityResponse {
                order_id: 1,
                order_number: "ORD-1".to_string(),
                created_at: Some(UtcDateTime {
                    year: 2023,
                    month: 11,
                    day: 14,
                    hour: 22,
                    minute: 13,
                    second: 20,
                    nanosecond: 0,
                }),
                items: vec![
                    OrderLineItems { sku_code: "A1".to_string(), price: 500, quantity: 2 },
                    OrderLineItems { sku_code: "B2".to_string(), price: 1, quantity: 1 },
                ],
            },
            OrderEntityResponse {
                order_id: 2,
                order_number: "ORD-2".to_string(),
                created_at: None,
                items: Vec::new(),
            },
            OrderEntityResponse {
                order_id: 3,
                order_number: "ORD-3".to_string(),
                created_at: None,
                items: Vec::new(),
            },
        ])
    );
    assert_eq!(service.get_order_list(Ok(order::OrderList { orders: Vec::new() })), Ok(Vec::new()));
    assert_eq!(service.get_order_list(Err(unavailable())), Err(failure("get order list failed")));
}

#[test]
fn order_deletion_translates_request_and_answer() {
    let service = order_service();
    assert_eq!(service.delete_order_request(9), order::DeleteOrderRequest { order_id: 9 });
    assert_eq!(
        service.delete_order(9, Ok(order::DeleteOrderResponse { is_deleted: true })),
        Ok(DeleteOrderResponse { is_deleted: true })
    );
    assert_eq!(
        service.delete_order(9, Ok(order::DeleteOrderResponse { is_deleted: false })),
        Ok(DeleteOrderResponse { is_deleted: false })
    );
    assert_eq!(
        service.delete_order(9, Err(unavailable())),
        Err(failure("delete order with order_id = 9 failed"))
    );
    assert_eq!(
        service.delete_order(-12, Err(unavailable())),
        Err(failure("delete order with order_id = -12 failed"))
    );
}

#[test]
fn product_is_stored_with_the_same_fields() {
    let service = product_service();
    let request = ProductRequest {
        name: "lamp".to_string(),
        description: "a lamp".to_string(),
        currency: "EUR".to_string(),
        price: 1999,
    };
    assert_eq!(
        service.save_product_request(request),
        product::ProductRequest {
            name: "lamp".to_string(),
            description: "a lamp".to_string(),
            currency: "EUR".to_string(),
            price: 1999,
        }
    );
    let stored = product::ProductResponse {
        id: "p-1".to_string(),
        name: "lamp".to_string(),
        description: "a lamp".to_string(),
        current: "EUR".to_string(),
        price: 1999,
    };
    let expected = ProductResponse {
        id: "p-1".to_string(),
        name: "lamp".to_string(),
        description: "a lamp".to_string(),
        currency: "EUR".to_string(),
        price: 1999,
    };
    assert_eq!(ProductService::map_to_product(stored.clone()), expected);
    assert_eq!(service.save_product(Ok(stored)), Ok(expected));
    assert_eq!(service.save_product(Err(unavailable())), Err(failure("save product failed")));
}

#[test]
fn product_list_keeps_products_in_order() {
    let service = product_service();
    assert_eq!(service.get_product_list_request(), product::Empty {});
    let wire = |id: &str, price: i64| product::ProductResponse {
        id: id.to_string(),
        name: format!("name-{}", id),
        description: format!("about {}", id),
        current: "USD".to_string(),
        price,
    };
    let rest = |id: &str, price: i64| ProductResponse {
        id: id.to_string(),
        name: format!("name-{}", id),
        description: format!("about {}", id),
        currency: "USD".to_string(),
        price,
    };
    assert_eq!(
        service.get_product_list(Ok(product::ProductList {
            products: vec![wire("b", 2), wire("a", 1), wire("c", 3)],
        })),
        Ok(vec![rest("b", 2), rest("a", 1), rest("c", 3)])
    );
    assert_eq!(
        service.get_product_list(Ok(product::ProductList { products: Vec::new() })),
        Ok(Vec::new())
    );
    assert_eq!(service.get_product_list(Err(unavailable())), Err(failure("get product list failed")));
}

#[test]
fn product_deletion_translates_request_and_answer() {
    let service = product_service();
    assert_eq!(
        service.delete_product_request("p-9"),
        product::DeleteProductRequest { id: "p-9".to_string() }
    );
    assert_eq!(
        service.delete_product("p-9", Ok(product::DeleteProductResponse { is_deleted: true })),
        Ok(DeleteProductResponse { is_deleted: true })
    );
    assert_eq!(
        service.delete_product("p-9", Ok(product::DeleteProductResponse { is_deleted: false })),
        Ok(DeleteProductResponse { is_deleted: false })
    );
    assert_eq!(
        service.delete_product("p-9", Err(unavailable())),
        Err(failure("delete product with product_id = p-9 failed"))
    );
}
