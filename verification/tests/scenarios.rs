use orders_core::application::order_service::OrderService;
use orders_core::domain::order::{OrderItem, OrderStatus};
use orders_core::domain::order_id::generate;
use orders_core::errors::AppError;
use orders_core::memory::InMemoryRepo;

fn widgets(qty: u32, unit_price_cents: i64) -> Vec<OrderItem> {
    vec![OrderItem { name: "Widget".into(), qty, unit_price_cents }]
}

#[test]
fn alice_orders_two_widgets() {
    let mut svc = OrderService::new(InMemoryRepo::new());
    let order = svc.create_order("Alice".into(), "a@b.com".into(), widgets(2, 500)).unwrap();
    assert_eq!(order.total_cents, 1000);
    assert_eq!(order.status, OrderStatus::Pending);
}

#[test]
fn an_order_without_items_is_a_bad_request() {
    let mut svc = OrderService::new(InMemoryRepo::new());
    let res = svc.create_order("Alice".into(), "a@b.com".into(), vec![]);
    assert!(matches!(res, Err(AppError::BadRequest(_))));
    assert_eq!(res.err().unwrap().status_code(), 400);
}

#[test]
fn an_order_without_a_customer_name_is_a_bad_request() {
    let mut svc = OrderService::new(InMemoryRepo::new());
    let res = svc.create_order("".into(), "a@b.com".into(), widgets(2, 500));
    assert!(matches!(res, Err(AppError::BadRequest(_))));
    assert_eq!(res.err().unwrap().status_code(), 400);
}

#[test]
fn a_shipped_order_is_found_shipped() {
    let mut svc = OrderService::new(InMemoryRepo::new());
    let order = svc.create_order("Alice".into(), "a@b.com".into(), widgets(2, 500)).unwrap();
    let updated = svc.update_status(order.id, OrderStatus::Shipped).unwrap();
    assert_eq!(updated.status, OrderStatus::Shipped);
    assert_eq!(svc.get_order(order.id).unwrap().status, OrderStatus::Shipped);
}

#[test]
fn an_unused_identifier_is_not_found() {
    let svc = OrderService::new(InMemoryRepo::new());
    let res = svc.get_order(generate());
    assert!(matches!(res, Err(AppError::NotFound(_))));
    assert_eq!(res.err().unwrap().status_code(), 404);
}

#[test]
fn a_second_delete_is_not_found() {
    let mut svc = OrderService::new(InMemoryRepo::new());
    let order = svc.create_order("Alice".into(), "a@b.com".into(), widgets(2, 500)).unwrap();
    assert!(svc.delete_order(order.id).is_ok());
    assert!(matches!(svc.delete_order(order.id), Err(AppError::NotFound(_))));
}
