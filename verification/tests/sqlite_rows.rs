use orders_core::domain::order::{Order, OrderItem, OrderStatus};
use orders_core::domain::order_id::to_text;
use orders_core::domain::timestamp::Timestamp;
use orders_core::ports::order_repository::RepoError;
use orders_core::sqlite::{
    any_row, database_file, found_row, found_rows, status_change, DbOrder, DecodedItems,
};

const ID: u128 = 0xa1a2a3a4b1b2c1c2d1d2d3d4d5d6d7d8;

fn row() -> DbOrder {
    DbOrder {
        id: "a1a2a3a4-b1b2-c1c2-d1d2-d3d4d5d6d7d8".into(),
        customer_name: "Test".into(),
        email: "test@example.com".into(),
        total_cents: 1000,
        status: "Shipped".into(),
        created_at: "2015-05-15T00:00:00+00:00".into(),
        updated_at: "2015-05-15T00:00:01.500+00:00".into(),
        items_json: "[{\"name\":\"Widget\",\"qty\":2,\"unit_price_cents\":500}]".into(),
    }
}

fn items() -> DecodedItems {
    Ok(vec![OrderItem { name: "Widget".into(), qty: 2, unit_price_cents: 500 }])
}

fn failure(r: Result<Order, RepoError>) -> String {
    match r {
        Err(RepoError::DbError(text)) => text,
        Ok(_) => panic!("expected a failure"),
    }
}

#[test]
fn a_row_is_read_into_its_order() {
    let order = row().into_order(items()).unwrap();
    assert_eq!(order.id, ID);
    assert_eq!(order.customer_name, "Test");
    assert_eq!(order.email, "test@example.com");
    assert_eq!(order.items.len(), 1);
    assert_eq!(order.items[0].name, "Widget");
    assert_eq!(order.total_cents, 1000);
    assert_eq!(order.status, OrderStatus::Shipped);
    assert_eq!(order.created_at, Timestamp { secs: 1_431_648_000, nanos: 0 });
    assert_eq!(order.updated_at, Timestamp { secs: 1_431_648_001, nanos: 500_000_000 });
}

#[test]
fn a_status_that_names_no_status_is_a_failure() {
    for text in ["Lost", "shipped", "", " Shipped", "Pending "] {
        let mut unknown = row();
        unknown.status = text.into();
        assert_eq!(failure(unknown.into_order(items())), format!("unknown status: {}", text));
    }
    // the status is looked at before the items
    let mut unknown = row();
    unknown.status = "Lost".into();
    assert_eq!(failure(unknown.into_order(Err("bad json".into()))), "unknown status: Lost");
    for name in ["Pending", "Confirmed", "Shipped", "Cancelled", "Completed"] {
        let mut known = row();
        known.status = name.into();
        assert_eq!(known.into_order(items()).unwrap().status.name(), name);
    }
}

#[test]
fn a_row_that_cannot_be_read_is_a_failure() {
    assert_eq!(failure(row().into_order(Err("bad json".into()))), "bad json");
    let mut bad = row();
    bad.created_at = "yesterday".into();
    assert!(bad.into_order(items()).is_err());
    let mut bad = row();
    bad.updated_at = "".into();
    assert!(bad.into_order(items()).is_err());
    let mut bad = row();
    bad.id = "42".into();
    assert!(bad.into_order(items()).is_err());
    // the items are looked at first
    let mut bad = row();
    bad.id = "42".into();
    bad.created_at = "yesterday".into();
    assert_eq!(failure(bad.into_order(Err("bad json".into()))), "bad json");
}

#[test]
fn an_order_is_written_down_and_read_back() {
    let mut order = Order::new(
        "Test".into(),
        "test@example.com".into(),
        vec![OrderItem { name: "Widget".into(), qty: 2, unit_price_cents: 500 }],
    )
    .unwrap();
    order.update_status(OrderStatus::Cancelled);
    let written = DbOrder::from_order(&order, "[]".into()).unwrap();
    assert_eq!(written.id, to_text(order.id));
    assert_eq!(written.customer_name, "Test");
    assert_eq!(written.email, "test@example.com");
    assert_eq!(written.total_cents, 1000);
    assert_eq!(written.status, "Cancelled");
    assert_eq!(Some(written.created_at.clone()), order.created_at.to_rfc3339());
    assert_eq!(Some(written.updated_at.clone()), order.updated_at.to_rfc3339());
    assert_eq!(written.items_json, "[]");
    let read = written.into_order(items()).unwrap();
    assert_eq!(read.id, order.id);
    assert_eq!(read.status, OrderStatus::Cancelled);
    assert_eq!(read.created_at, order.created_at);
    assert_eq!(read.updated_at, order.updated_at);
    assert_eq!(read.total_cents, order.total_cents);
}

#[test]
fn a_time_outside_the_calendar_is_not_written_down() {
    let mut order = Order::new(
        "Test".into(),
        "test@example.com".into(),
        vec![OrderItem { name: "Widget".into(), qty: 2, unit_price_cents: 500 }],
    )
    .unwrap();
    order.updated_at = Timestamp { secs: i64::MAX, nanos: 0 };
    assert!(DbOrder::from_order(&order, "[]".into()).is_err());
    order.updated_at = order.created_at;
    order.created_at = Timestamp { secs: i64::MIN, nanos: 0 };
    assert!(DbOrder::from_order(&order, "[]".into()).is_err());
    assert!(status_change(ID, OrderStatus::Shipped, Timestamp { secs: i64::MAX, nanos: 0 }).is_err());
}

#[test]
fn a_found_row_is_an_order_and_no_row_is_absence() {
    assert!(found_row(None).unwrap().is_none());
    assert_eq!(found_row(Some((row(), items()))).unwrap().unwrap().id, ID);
    assert!(found_row(Some((row(), Err("bad json".into())))).is_err());
    let mut unknown = row();
    unknown.status = "Lost".into();
    assert!(found_row(Some((unknown, items()))).is_err());
}

#[test]
fn rows_are_read_in_their_order_and_the_first_failure_wins() {
    assert!(found_rows(vec![]).unwrap().is_empty());
    let mut second = row();
    second.customer_name = "Second".into();
    let all = found_rows(vec![(row(), items()), (second, items())]).unwrap();
    assert_eq!(all.len(), 2);
    assert_eq!(all[0].customer_name, "Test");
    assert_eq!(all[1].customer_name, "Second");
    let failed = found_rows(vec![
        (row(), items()),
        (row(), Err("first".into())),
        (row(), Err("second".into())),
    ]);
    match failed {
        Err(RepoError::DbError(text)) => assert_eq!(text, "first"),
        Ok(_) => panic!("expected a failure"),
    }
    let mut unknown = row();
    unknown.status = "Lost".into();
    match found_rows(vec![(row(), items()), (unknown, items()), (row(), Err("late".into()))]) {
        Err(RepoError::DbError(text)) => assert_eq!(text, "unknown status: Lost"),
        Ok(_) => panic!("expected a failure"),
    }
}

#[test]
fn changed_rows_say_whether_the_order_was_there() {
    assert!(!any_row(0));
    assert!(any_row(1));
    assert!(any_row(u64::MAX));
}

#[test]
fn the_values_of_a_status_change() {
    let change =
        status_change(ID, OrderStatus::Completed, Timestamp { secs: 1_431_648_000, nanos: 0 })
            .unwrap();
    assert_eq!(change.status, "Completed");
    assert_eq!(change.updated_at, "2015-05-15T00:00:00+00:00");
    assert_eq!(change.id, "a1a2a3a4-b1b2-c1c2-d1d2-d3d4d5d6d7d8");
}

#[test]
fn the_file_behind_a_database_url() {
    assert_eq!(database_file("sqlite://orders.db"), Some("orders.db"));
    assert_eq!(database_file("sqlite:///var/lib/orders/orders.db"), Some("/var/lib/orders/orders.db"));
    assert_eq!(database_file("sqlite://:memory:"), None);
    assert_eq!(database_file("sqlite::memory:"), None);
    assert_eq!(database_file("postgres://db/orders"), None);
    assert_eq!(database_file("sqlite://"), Some(""));
}

#[test]
fn the_first_complaint_about_a_row_is_the_failure() {
    let t = Timestamp { secs: 1, nanos: 2 };
    let no_time = |text: &str| -> Result<Timestamp, String> { Err(text.to_string()) };
    let no_id = || -> Result<u128, String> { Err("id".to_string()) };
    assert_eq!(
        failure(row().with_parts(
            Err("items".into()),
            no_time("created"),
            no_time("updated"),
            no_id()
        )),
        "items"
    );
    assert_eq!(
        failure(row().with_parts(items(), no_time("created"), no_time("updated"), no_id())),
        "created"
    );
    assert_eq!(failure(row().with_parts(items(), Ok(t), no_time("updated"), no_id())), "updated");
    assert_eq!(failure(row().with_parts(items(), Ok(t), Ok(t), no_id())), "id");
    let mut unknown = row();
    unknown.status = "Lost".into();
    assert_eq!(
        failure(unknown.with_parts(
            Err("items".into()),
            no_time("created"),
            no_time("updated"),
            no_id()
        )),
        "unknown status: Lost"
    );
    let mut unknown = row();
    unknown.status = "shipped".into();
    assert_eq!(failure(unknown.with_parts(items(), Ok(t), Ok(t), Ok(9))), "unknown status: shipped");
    let order = row().with_parts(items(), Ok(t), Ok(Timestamp { secs: 3, nanos: 4 }), Ok(9)).unwrap();
    assert_eq!(order.id, 9);
    assert_eq!(order.created_at, t);
    assert_eq!(order.updated_at, Timestamp { secs: 3, nanos: 4 });
    assert_eq!(order.status, OrderStatus::Shipped);
    assert_eq!(order.customer_name, "Test");
    assert_eq!(order.total_cents, 1000);
}

#[test]
fn a_row_is_put_together_from_the_texts_of_its_times() {
    let order = row().into_order(items()).unwrap();
    let written =
        DbOrder::of_texts(&order, Some("then".into()), Some("now".into()), "[]".into()).unwrap();
    assert_eq!(written.id, "a1a2a3a4-b1b2-c1c2-d1d2-d3d4d5d6d7d8");
    assert_eq!(written.status, "Shipped");
    assert_eq!(written.created_at, "then");
    assert_eq!(written.updated_at, "now");
    assert_eq!(written.items_json, "[]");
    match DbOrder::of_texts(&order, None, None, "[]".into()) {
        Err(RepoError::DbError(text)) => assert_eq!(text, "created_at out of range"),
        Ok(_) => panic!("expected a failure"),
    }
    match DbOrder::of_texts(&order, Some("then".into()), None, "[]".into()) {
        Err(RepoError::DbError(text)) => assert_eq!(text, "updated_at out of range"),
        Ok(_) => panic!("expected a failure"),
    }
}

#[test]
fn a_fresh_order_can_always_be_written_down() {
    let mut order = Order::new(
        "Test".into(),
        "test@example.com".into(),
        vec![OrderItem { name: "Widget".into(), qty: 2, unit_price_cents: 500 }],
    )
    .unwrap();
    assert!(DbOrder::from_order(&order, "[]".into()).is_ok());
    order.update_status(OrderStatus::Shipped);
    assert!(DbOrder::from_order(&order, "[]".into()).is_ok());
}
