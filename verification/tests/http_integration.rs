use orders_core::application::order_service::OrderService;
use orders_core::domain::order::{OrderItem, OrderStatus};
use orders_core::domain::order_id::{generate, to_text};
use orders_core::errors::AppError;
use orders_core::inbound::http::{
    create_order, delete_order, get_order, health, list_orders, order_path, order_status_path,
    orders_path, parse_id, update_status, CreateOrderRequest, CreateOrderResponse,
    HttpServerConfig, UpdateStatusRequest, CREATED, NO_CONTENT, OK,
};
use orders_core::repo::build_repo;

#[test]
fn create_list_update_delete_over_http() {
    let config = HttpServerConfig { port: "50".to_string() };
    assert_eq!(config.bind_address(), "0.0.0.0:50");

    let repo = build_repo(None);
    let mut service = OrderService::new(repo);

    let create_body = CreateOrderRequest {
        customer_name: "HttpUser".into(),
        email: "http@example.com".into(),
        items: vec![OrderItem { name: "Widget".into(), qty: 1, unit_price_cents: 500 }],
    };

    let (status, created) = create_order(&mut service, create_body).unwrap();
    assert_eq!(status, 201);
    let id = created.id.clone();
    assert_eq!(created.status, OrderStatus::Pending);

    let (_, fetched) = get_order(&service, &id).unwrap();
    assert_eq!(fetched.customer_name, "HttpUser");

    let (_, list) = list_orders(&service).unwrap();
    assert_eq!(list.len(), 1);
    assert_eq!(to_text(list[0].id), id);

    let update_body = UpdateStatusRequest { status: OrderStatus::Shipped };
    let (status, updated) = update_status(&mut service, &id, update_body).unwrap();
    assert_eq!(status, 200);
    assert_eq!(updated.status, OrderStatus::Shipped);

    let (status, _) = delete_order(&mut service, &id).unwrap();
    assert_eq!(status, 204);
}

#[test]
fn bad_request_and_not_found_paths() {
    let repo = build_repo(None);
    let mut service = OrderService::new(repo);

    let bad_body =
        CreateOrderRequest { customer_name: "".into(), email: "invalid".into(), items: vec![] };
    let res = create_order(&mut service, bad_body);
    assert_eq!(res.err().unwrap().status_code(), 400);

    let missing_id = generate();
    let res = get_order(&service, &to_text(missing_id));
    assert_eq!(res.err().unwrap().status_code(), 404);
}

#[test]
fn status_codes_of_the_operations() {
    assert_eq!(OK, 200);
    assert_eq!(CREATED, 201);
    assert_eq!(NO_CONTENT, 204);
    assert_eq!(health(), (200, "{\"status\":\"ok\"}"));
}

#[test]
fn a_malformed_identifier_is_a_bad_request() {
    let mut service = OrderService::new(build_repo(None));
    assert!(matches!(parse_id("42"), Err(AppError::BadRequest(_))));
    assert_eq!(get_order(&service, "nope").err().unwrap().status_code(), 400);
    assert_eq!(
        update_status(&mut service, "nope", UpdateStatusRequest { status: OrderStatus::Shipped })
            .err()
            .unwrap()
            .status_code(),
        400
    );
    assert_eq!(delete_order(&mut service, "nope").err().unwrap().status_code(), 400);
    let id = generate();
    assert_eq!(parse_id(&to_text(id)).unwrap(), id);
}

#[test]
fn a_missing_order_is_not_found_for_update_and_delete() {
    let mut service = OrderService::new(build_repo(None));
    let id = to_text(generate());
    let body = UpdateStatusRequest { status: OrderStatus::Confirmed };
    assert_eq!(update_status(&mut service, &id, body).err().unwrap().status_code(), 404);
    assert_eq!(delete_order(&mut service, &id).err().unwrap().status_code(), 404);
}

#[test]
fn creation_answers_with_identifier_and_status() {
    let mut service = OrderService::new(build_repo(None));
    let body = CreateOrderRequest {
        customer_name: "Alice".into(),
        email: "a@b.com".into(),
        items: vec![OrderItem { name: "Widget".into(), qty: 2, unit_price_cents: 500 }],
    };
    let (status, answer) = create_order(&mut service, body).unwrap();
    assert_eq!(status, CREATED);
    let (_, stored) = get_order(&service, &answer.id).unwrap();
    assert_eq!(stored.total_cents, 1000);
    assert_eq!(answer, CreateOrderResponse::from_order(&stored));
    assert_eq!(answer.id, to_text(stored.id));
    assert_eq!(answer.id.len(), 36);
}

#[test]
fn paths_of_the_operations() {
    assert_eq!(orders_path(), "orders");
    assert_eq!(order_path("a1a2"), "orders/a1a2");
    assert_eq!(order_status_path("a1a2"), "orders/a1a2/status");
    assert_eq!(order_path(""), "orders/");
}

#[test]
fn successes_answer_with_their_status_and_body() {
    let mut service = OrderService::new(build_repo(None));
    let body = CreateOrderRequest {
        customer_name: "Alice".into(),
        email: "a@b.com".into(),
        items: vec![OrderItem { name: "Widget".into(), qty: 2, unit_price_cents: 500 }],
    };
    let (status, answer) = create_order(&mut service, body).unwrap();
    assert_eq!(status, 201);
    let (status, order) = get_order(&service, &answer.id).unwrap();
    assert_eq!(status, 200);
    assert_eq!(order.total_cents, 1000);
    let (status, all) = list_orders(&service).unwrap();
    assert_eq!(status, 200);
    assert_eq!(all.len(), 1);
    let request = UpdateStatusRequest { status: OrderStatus::Confirmed };
    let (status, updated) = update_status(&mut service, &answer.id, request).unwrap();
    assert_eq!(status, 200);
    assert!(updated.updated_at > order.updated_at);
    assert!(updated.updated_at >= updated.created_at);
    let (status, nothing) = delete_order(&mut service, &answer.id).unwrap();
    assert_eq!(status, 204);
    assert_eq!(nothing, "");
    let (status, all) = list_orders(&service).unwrap();
    assert_eq!(status, 200);
    assert!(all.is_empty());
}
