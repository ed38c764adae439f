//! The HTTP operations: what each request asks of the service, and which
//! status answers it.

use crate::application::order_service::{
    failure_of, is_bad_request_for, order_deleted, order_looked_up, orders_listed, status_updated,
    OrderService,
};
use crate::domain::order::{
    item_views, violation, Order, OrderItem, OrderItemView, OrderStatus, OrderView,
};
use crate::domain::order_id::{hyphenated, parse, parsed_uuid, to_text, OrderId};
use crate::errors::AppError;
use crate::ports::order_repository::{same_but, OrderRepository};
use vstd::prelude::*;
use vstd::string::StringExecFns;

verus! {

/// The status of a successful read or update.
pub const OK: u16 = 200;

/// The status of a successful creation.
pub const CREATED: u16 = 201;

/// The status of a successful deletion.
pub const NO_CONTENT: u16 = 204;

/// How the server is set up.
#[derive(Debug, Clone)]
pub struct HttpServerConfig {
    pub port: String,
}

impl HttpServerConfig {
    /// The address that the server binds: every interface, on the port of
    /// this configuration.
    pub fn bind_address(&self) -> (address: String)
        ensures
            address@ == "0.0.0.0:"@ + self.port@,
    {
        "0.0.0.0:".to_owned().concat(self.port.as_str())
    }
}

/// The path of the orders, from the base of the server.
pub fn orders_path() -> (path: &'static str)
    ensures
        path@ == "orders"@,
{
    "orders"
}

/// The path of the order with the identifier `id`, from the base of the
/// server.
pub fn order_path(id: &str) -> (path: String)
    ensures
        path@ == "orders/"@ + id@,
{
    "orders/".to_owned().concat(id)
}

/// The path of the status of the order with the identifier `id`, from the
/// base of the server.
pub fn order_status_path(id: &str) -> (path: String)
    ensures
        path@ == "orders/"@ + id@ + "/status"@,
{
    "orders/".to_owned().concat(id).concat("/status")
}

/// The body of a request to create an order.
#[derive(Debug)]
pub struct CreateOrderRequest {
    pub customer_name: String,
    pub email: String,
    pub items: Vec<OrderItem>,
}

/// The body of a request to change the status of an order.
#[derive(Debug, Clone, Copy)]
pub struct UpdateStatusRequest {
    pub status: OrderStatus,
}

/// The body that answers a creation: the identifier, as text, and the status.
#[derive(Debug, Clone, PartialEq, Eq)]
pub struct CreateOrderResponse {
    pub id: String,
    pub status: OrderStatus,
}

impl CreateOrderResponse {
    /// Whether this body answers the creation of `order`: it holds the text
    /// of the order's identifier, which reads back as that identifier, and
    /// the order's status.
    pub open spec fn answers(self, order: OrderView) -> bool {
        &&& self.id@ == hyphenated(order.id)
        &&& parsed_uuid(self.id@) == Some(order.id)
        &&& self.status == order.status
    }

    /// The body that answers the creation of `order`.
    pub fn from_order(order: &Order) -> (body: CreateOrderResponse)
        ensures
            body.answers(order@),
    {
        CreateOrderResponse { id: to_text(order.id), status: order.status }
    }
}

/// Reads the identifier in a request path. A text that is not the text of a
/// UUID is the caller's mistake.
pub fn parse_id(id: &str) -> (r: Result<OrderId, AppError>)
    ensures
        r is Ok <==> parsed_uuid(id@) is Some,
        r matches Ok(v) ==> parsed_uuid(id@) == Some(v),
        r matches Err(e) ==> e is BadRequest,
{
    match parse(id) {
        Ok(v) => Ok(v),
        Err(reason) => Err(AppError::BadRequest(reason)),
    }
}

/// The body that answers a health check.
pub open spec fn health_body() -> Seq<char> {
    "{\"status\":\"ok\"}"@
}

/// `GET /health`: always `OK`, with the JSON body that says so.
pub fn health() -> (r: (u16, &'static str))
    ensures
        r.0 == OK,
        r.1@ == health_body(),
{
    (OK, "{\"status\":\"ok\"}")
}

/// What an answer holds besides its status, or the failure.
pub open spec fn answer_of<T>(r: Result<(u16, T), AppError>) -> Result<T, AppError> {
    match r {
        Ok(answer) => Ok(answer.1),
        Err(e) => Err(e),
    }
}

/// Whether `r`, if it is a success, has the status `code`.
pub open spec fn succeeds_with<T>(r: Result<(u16, T), AppError>, code: u16) -> bool {
    r matches Ok(answer) ==> answer.0 == code
}

/// Whether `r` refuses a path whose identifier does not read.
pub open spec fn is_bad_path<T>(r: Result<T, AppError>) -> bool {
    r is Err && r->Err_0 is BadRequest
}

/// What `POST /orders` does, from the store `before` to the store `after`,
/// when it answers `r`. A request that breaks a rule is rejected with the
/// rule's message, and nothing is stored. Otherwise the answer is `CREATED`
/// with the text of the new identifier and the status `Pending`, and the
/// store holds one order more, made of the request; or the store failed,
/// and all orders but one are as before.
pub open spec fn created_over_http(
    before: Map<OrderId, OrderView>,
    after: Map<OrderId, OrderView>,
    customer_name: Seq<char>,
    email: Seq<char>,
    items: Seq<OrderItemView>,
    r: Result<(u16, CreateOrderResponse), AppError>,
    infallible: bool,
) -> bool {
    match violation(customer_name, email, items) {
        Some(rule) => r is Err && is_bad_request_for(r->Err_0, rule) && after == before,
        None => match r {
            Ok(answer) => {
                &&& answer.0 == CREATED
                &&& answer.1.status == OrderStatus::Pending
                &&& parsed_uuid(answer.1.id@) matches Some(id)
                &&& after.contains_key(id)
                &&& after == before.insert(id, after[id])
                &&& after[id] == OrderView::fresh(
                    id,
                    after[id].created_at,
                    customer_name,
                    email,
                    items,
                )
                &&& answer.1.answers(after[id])
            },
            Err(AppError::Internal(_)) => !infallible && exists|id: OrderId|
                same_but(after, before, id),
            Err(_) => false,
        },
    }
}

/// `POST /orders`: creates the order of the request.
pub fn create_order<R: OrderRepository>(
    service: &mut OrderService<R>,
    payload: CreateOrderRequest,
) -> (r: Result<(u16, CreateOrderResponse), AppError>)
    ensures
        created_over_http(
            old(service).orders(),
            final(service).orders(),
            payload.customer_name@,
            payload.email@,
            item_views(payload.items@),
            r,
            R::infallible(),
        ),
{
    let order = service.create_order(payload.customer_name, payload.email, payload.items)?;
    let body = CreateOrderResponse::from_order(&order);
    Ok((CREATED, body))
}

/// `GET /orders/{id}`: the order under the identifier of the path, with
/// `OK`. A path whose identifier does not read is a bad request.
pub fn get_order<R: OrderRepository>(
    service: &OrderService<R>,
    id: &str,
) -> (r: Result<(u16, Order), AppError>)
    ensures
        succeeds_with(r, OK),
        parsed_uuid(id@) is None ==> is_bad_path(r),
        parsed_uuid(id@) matches Some(v) ==> order_looked_up(
            service.orders(),
            v,
            answer_of(r),
            R::infallible(),
        ),
{
    let v = parse_id(id)?;
    let order = service.get_order(v)?;
    Ok((OK, order))
}

/// `GET /orders`: all orders, with `OK`.
pub fn list_orders<R: OrderRepository>(
    service: &OrderService<R>,
) -> (r: Result<(u16, Vec<Order>), AppError>)
    ensures
        succeeds_with(r, OK),
        orders_listed(service.orders(), answer_of(r), R::infallible()),
{
    let all = service.list_orders()?;
    Ok((OK, all))
}

/// `PATCH /orders/{id}/status`: gives the order under the identifier of the
/// path the status of the request, and answers with the updated order and
/// `OK`. A path whose identifier does not read is a bad request, and nothing
/// is changed.
pub fn update_status<R: OrderRepository>(
    service: &mut OrderService<R>,
    id: &str,
    payload: UpdateStatusRequest,
) -> (r: Result<(u16, Order), AppError>)
    ensures
        succeeds_with(r, OK),
        parsed_uuid(id@) is None ==> is_bad_path(r),
        parsed_uuid(id@) is None ==> final(service).orders() == old(service).orders(),
        parsed_uuid(id@) matches Some(v) ==> status_updated(
            old(service).orders(),
            final(service).orders(),
            v,
            payload.status,
            answer_of(r),
            R::infallible(),
        ),
{
    let v = parse_id(id)?;
    let order = service.update_status(v, payload.status)?;
    Ok((OK, order))
}

/// `DELETE /orders/{id}`: removes the order under the identifier of the
/// path, and answers with `NO_CONTENT` and an empty body. A path whose
/// identifier does not read is a bad request, and nothing is changed.
pub fn delete_order<R: OrderRepository>(
    service: &mut OrderService<R>,
    id: &str,
) -> (r: Result<(u16, String), AppError>)
    ensures
        succeeds_with(r, NO_CONTENT),
        r matches Ok(answer) ==> answer.1@.len() == 0,
        parsed_uuid(id@) is None ==> is_bad_path(r),
        parsed_uuid(id@) is None ==> final(service).orders() == old(service).orders(),
        parsed_uuid(id@) matches Some(v) ==> order_deleted(
            old(service).orders(),
            final(service).orders(),
            v,
            failure_of(r),
            R::infallible(),
        ),
{
    let v = parse_id(id)?;
    service.delete_order(v)?;
    Ok((NO_CONTENT, String::new()))
}

} // verus!
