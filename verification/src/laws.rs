//! What holds of orders and of the service, whatever the store that it runs
//! on. Each law speaks of the operations through what they answer and what
//! they do to the stored orders.

use crate::application::order_service::{
    is_bad_request_for, is_not_found, order_created, order_deleted, order_looked_up,
    orders_listed, status_updated,
};
use crate::domain::order::{
    items_total, violation, Order, OrderItemView, OrderStatus, OrderView,
};
use crate::domain::order_id::OrderId;
use crate::domain::timestamp::Timestamp;
use crate::errors::AppError;
use crate::ports::order_repository::{is_listing, order_views};
use vstd::prelude::*;

verus! {

/// An order made of inputs that break no rule is well formed: it has the
/// exact sum of its line totals as its total. It is `Pending`, and it was
/// last changed when it was created.
pub proof fn lemma_fresh_order(
    id: OrderId,
    now: Timestamp,
    customer_name: Seq<char>,
    email: Seq<char>,
    items: Seq<OrderItemView>,
)
    requires
        violation(customer_name, email, items) is None,
    ensures
        OrderView::fresh(id, now, customer_name, email, items).well_formed(),
        OrderView::fresh(id, now, customer_name, email, items).total_cents == items_total(items),
        OrderView::fresh(id, now, customer_name, email, items).status == OrderStatus::Pending,
        OrderView::fresh(id, now, customer_name, email, items).created_at == now,
        OrderView::fresh(id, now, customer_name, email, items).updated_at == now,
{
}

/// Valid inputs make an order: with inputs that break no rule, creation
/// answers with an order or with a failure of the store, never with a
/// rejection, and a store that never fails gives the order. The order has
/// the exact total, is `Pending`, and both of its times are the same.
pub proof fn lemma_valid_inputs_are_created(
    before: Map<OrderId, OrderView>,
    after: Map<OrderId, OrderView>,
    customer_name: Seq<char>,
    email: Seq<char>,
    items: Seq<OrderItemView>,
    r: Result<Order, AppError>,
    infallible: bool,
)
    requires
        violation(customer_name, email, items) is None,
        order_created(before, after, customer_name, email, items, r, infallible),
    ensures
        infallible ==> r is Ok,
        r matches Err(e) ==> e is Internal,
        r matches Ok(o) ==> o.total_cents == items_total(items),
        r matches Ok(o) ==> o.status == OrderStatus::Pending && o.created_at == o.updated_at,
        r matches Ok(o) ==> o@.well_formed(),
        r matches Ok(o) ==> o@.customer_name == customer_name && o@.email == email && o@.items
            == items,
{
}

/// Invalid inputs make nothing: with inputs that break a rule, creation is
/// rejected with the message of the first broken rule, and no order is
/// stored.
pub proof fn lemma_invalid_inputs_are_rejected(
    before: Map<OrderId, OrderView>,
    after: Map<OrderId, OrderView>,
    customer_name: Seq<char>,
    email: Seq<char>,
    items: Seq<OrderItemView>,
    r: Result<Order, AppError>,
    infallible: bool,
)
    requires
        violation(customer_name, email, items) is Some,
        order_created(before, after, customer_name, email, items, r, infallible),
    ensures
        r is Err,
        is_bad_request_for(r->Err_0, violation(customer_name, email, items)->Some_0),
        r->Err_0.status() == 400,
        after == before,
{
}

/// Absence is stable. Where no order is stored under `id`, a lookup, a
/// status update and a deletion all fail: with `NotFound`, or, on a store
/// that can fail, with an internal failure. An answer of `NotFound` comes
/// with an unchanged store, so that the same question has the same answer
/// however often it is asked.
pub proof fn lemma_absent_stays_absent(
    before: Map<OrderId, OrderView>,
    after: Map<OrderId, OrderView>,
    id: OrderId,
    status: OrderStatus,
    answer: Result<Order, AppError>,
    failure: Option<AppError>,
    infallible: bool,
)
    requires
        !before.contains_key(id),
    ensures
        order_looked_up(before, id, answer, infallible) ==> answer is Err && (infallible
            ==> is_not_found(answer->Err_0, id)),
        status_updated(before, after, id, status, answer, infallible) ==> answer is Err && (
        infallible ==> is_not_found(answer->Err_0, id)) && (answer->Err_0 is NotFound ==> after
            == before),
        order_deleted(before, after, id, failure, infallible) ==> failure is Some && (infallible
            ==> is_not_found(failure->Some_0, id)) && (failure->Some_0 is NotFound ==> after
            == before),
        is_not_found(answer->Err_0, id) ==> answer->Err_0.status() == 404,
{
}

/// Round trip: an order that was just created is found under its identifier,
/// equal to the created order in every field.
pub proof fn lemma_created_is_found(
    before: Map<OrderId, OrderView>,
    after: Map<OrderId, OrderView>,
    customer_name: Seq<char>,
    email: Seq<char>,
    items: Seq<OrderItemView>,
    created: Order,
    looked_up: Result<Order, AppError>,
    infallible: bool,
)
    requires
        order_created(
            before,
            after,
            customer_name,
            email,
            items,
            Ok::<Order, AppError>(created),
            infallible,
        ),
        order_looked_up(after, created.id, looked_up, infallible),
    ensures
        infallible ==> looked_up is Ok,
        looked_up matches Ok(found) ==> found@ == created@,
        looked_up matches Err(e) ==> e is Internal,
{
    assert(violation(customer_name, email, items) is None);
}

/// A status update persists: after the order under `id` was given `status`,
/// a lookup finds it as the update handed it back, with that status and
/// otherwise as it was. Its time of last change is strictly later than it
/// was before the update, and not before its creation. (Only after the last
/// instant that can be held is no instant later.)
pub proof fn lemma_status_update_persists(
    before: Map<OrderId, OrderView>,
    after: Map<OrderId, OrderView>,
    id: OrderId,
    status: OrderStatus,
    updated: Order,
    looked_up: Result<Order, AppError>,
    infallible: bool,
)
    requires
        status_updated(before, after, id, status, Ok::<Order, AppError>(updated), infallible),
        order_looked_up(after, id, looked_up, infallible),
    ensures
        infallible ==> looked_up is Ok,
        looked_up matches Err(e) ==> e is Internal,
        looked_up matches Ok(found) ==> found@ == updated@ && found.status == status,
        looked_up matches Ok(found) ==> found@.same_but_status(before[id]),
        looked_up matches Ok(found) ==> before[id].updated_at.precedes(found.updated_at)
            || before[id].updated_at.is_last(),
        looked_up matches Ok(found) ==> found.created_at.not_after(found.updated_at),
{
}

/// Deletion is final: after the order under `id` was deleted, the store does
/// not hold it, no listing holds it, a lookup does not find it, and a second
/// deletion does not succeed. On a store that never fails the lookup and the
/// second deletion answer `NotFound`.
pub proof fn lemma_deleted_is_gone(
    before: Map<OrderId, OrderView>,
    after: Map<OrderId, OrderView>,
    after_again: Map<OrderId, OrderView>,
    id: OrderId,
    listed: Result<Vec<Order>, AppError>,
    looked_up: Result<Order, AppError>,
    deleted_again: Option<AppError>,
    infallible: bool,
)
    requires
        order_deleted(before, after, id, None, infallible),
    ensures
        !after.contains_key(id),
        orders_listed(after, listed, infallible) ==> (listed matches Ok(all) ==> forall|i: int|
            0 <= i < all.len() ==> (#[trigger] all[i]).id != id),
        order_looked_up(after, id, looked_up, infallible) ==> looked_up is Err && (infallible
            ==> is_not_found(looked_up->Err_0, id)),
        order_deleted(after, after_again, id, deleted_again, infallible) ==> deleted_again
            is Some && (infallible ==> is_not_found(deleted_again->Some_0, id)),
{
    if orders_listed(after, listed, infallible) {
        if let Ok(all) = listed {
            assert forall|i: int| 0 <= i < all.len() implies (#[trigger] all[i]).id != id by {
                assert(after.contains_key(order_views(all@)[i].id));
            }
        }
    }
}

/// An operation on one order leaves the others alone: whatever a status
/// update or a deletion of the order under `id` answers, what is stored
/// under another identifier is the same afterwards.
pub proof fn lemma_others_untouched(
    before: Map<OrderId, OrderView>,
    after: Map<OrderId, OrderView>,
    id: OrderId,
    status: OrderStatus,
    updated: Result<Order, AppError>,
    deleted: Option<AppError>,
    infallible: bool,
    other: OrderId,
)
    requires
        other != id,
        status_updated(before, after, id, status, updated, infallible) || order_deleted(
            before,
            after,
            id,
            deleted,
            infallible,
        ),
    ensures
        after.contains_key(other) == before.contains_key(other),
        before.contains_key(other) ==> after[other] == before[other],
{
    assert(after.remove(id).contains_key(other) == after.contains_key(other));
    assert(before.remove(id).contains_key(other) == before.contains_key(other));
    if before.contains_key(other) {
        assert(after.remove(id)[other] == after[other]);
        assert(before.remove(id)[other] == before[other]);
    }
}

/// Whether every stored order is well formed.
pub open spec fn all_well_formed(orders: Map<OrderId, OrderView>) -> bool {
    forall|id: OrderId| #[trigger] orders.contains_key(id) ==> orders[id].well_formed()
}

/// Whether every stored order is stored under its own identifier.
pub open spec fn all_under_own_id(orders: Map<OrderId, OrderView>) -> bool {
    forall|id: OrderId| #[trigger] orders.contains_key(id) ==> orders[id].id == id
}

/// Whether a store is sound: every stored order is well formed, so that its
/// total is the exact sum of its line totals, and stored under its own
/// identifier.
pub open spec fn sound(orders: Map<OrderId, OrderView>) -> bool {
    all_well_formed(orders) && all_under_own_id(orders)
}

/// No successful operation lets an ill-formed order into a store, nor an
/// order under another identifier than its own: a sound store is sound again
/// after a creation, after a status update and after a deletion.
pub proof fn lemma_store_stays_sound(
    before: Map<OrderId, OrderView>,
    after: Map<OrderId, OrderView>,
    customer_name: Seq<char>,
    email: Seq<char>,
    items: Seq<OrderItemView>,
    id: OrderId,
    status: OrderStatus,
    answer: Order,
    infallible: bool,
)
    requires
        sound(before),
    ensures
        order_created(
            before,
            after,
            customer_name,
            email,
            items,
            Ok::<Order, AppError>(answer),
            infallible,
        ) ==> sound(after),
        status_updated(before, after, id, status, Ok::<Order, AppError>(answer), infallible)
            ==> sound(after),
        order_deleted(before, after, id, None, infallible) ==> sound(after),
{
}

/// A status change keeps an order well formed, whatever the clock reads:
/// the items and the total stay, the time of the last change moves strictly
/// forward, and it is never before the creation. Where the clock has moved
/// on since the last change by a nanosecond or more, the time of the change
/// is the clock's reading.
pub proof fn lemma_status_change_keeps_well_formed(
    order: OrderView,
    status: OrderStatus,
    now: Timestamp,
)
    ensures
        order.changed(status, now).is_change_of(order, status),
        order.changed(status, now).same_but_status(order),
        order.well_formed() ==> order.changed(status, now).well_formed(),
        order.updated_at.next().not_after(now) && order.created_at.not_after(now)
            ==> order.changed(status, now).updated_at == now,
{
}

/// A listing holds an order exactly when the store holds it.
pub proof fn lemma_listing_is_the_store(
    listing: Seq<OrderView>,
    orders: Map<OrderId, OrderView>,
    order: OrderView,
)
    requires
        is_listing(listing, orders),
    ensures
        listing.contains(order) <==> orders.contains_key(order.id) && orders[order.id] == order,
{
    if orders.contains_key(order.id) && orders[order.id] == order {
        let i = choose|i: int| 0 <= i < listing.len() && (#[trigger] listing[i]).id == order.id;
        assert(listing[i] == order);
    }
    if listing.contains(order) {
        let i = choose|i: int| 0 <= i < listing.len() && listing[i] == order;
        assert(orders.contains_key(listing[i].id));
    }
}

} // verus!
