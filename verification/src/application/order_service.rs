//! The order service: validation, one call to the repository per operation,
//! and what the repository answers turned into the application's own
//! successes and failures.

use crate::domain::order::{
    item_views, violation, Order, OrderItem, OrderItemView, OrderStatus, OrderView,
    ValidationError,
};
use crate::domain::order_id::{hyphenated, is_v4, to_text, OrderId};
use crate::errors::AppError;
use crate::ports::order_repository::{
    is_listing, lemma_listing_counts, order_views, same_but, OrderRepository, RepoError,
};
use vstd::prelude::*;
use vstd::string::StringExecFns;

verus! {

/// The text of a `NotFound` failure for `id`: `order ` and the identifier.
pub open spec fn not_found_text(id: OrderId) -> Seq<char> {
    "order "@ + hyphenated(id)
}

/// Whether `e` says that no order is stored under `id`.
pub open spec fn is_not_found(e: AppError, id: OrderId) -> bool {
    e matches AppError::NotFound(m) && m@ == not_found_text(id)
}

/// Whether `e` is the rejection of an input that breaks `rule`.
pub open spec fn is_bad_request_for(e: AppError, rule: ValidationError) -> bool {
    e matches AppError::BadRequest(m) && m@ == rule.text()
}

/// Whether `e` is the internal failure that stands for `cause`.
pub open spec fn is_internal_for(e: AppError, cause: RepoError) -> bool {
    e matches AppError::Internal(m) && m@ == cause.text()
}

/// The failure of an answer, if it is one.
pub open spec fn failure_of<T>(r: Result<T, AppError>) -> Option<AppError> {
    match r {
        Ok(_) => None,
        Err(e) => Some(e),
    }
}

/// What creation does, from the store `before` to the store `after`, when it
/// answers `r`. Inputs that break a rule are rejected with the rule's
/// message, and nothing is stored. Otherwise the answer is the new order,
/// `Pending`, with the exact total, a fresh identifier and both times alike,
/// and the store holds it; or the store failed, which a store that never
/// fails does not.
pub open spec fn order_created(
    before: Map<OrderId, OrderView>,
    after: Map<OrderId, OrderView>,
    customer_name: Seq<char>,
    email: Seq<char>,
    items: Seq<OrderItemView>,
    r: Result<Order, AppError>,
    infallible: bool,
) -> bool {
    match violation(customer_name, email, items) {
        Some(rule) => r is Err && is_bad_request_for(r->Err_0, rule) && after == before,
        None => match r {
            Ok(o) => {
                &&& o@ == OrderView::fresh(o.id, o.created_at, customer_name, email, items)
                &&& is_v4(o.id)
                &&& o.created_at.writable()
                &&& after == before.insert(o.id, o@)
            },
            Err(AppError::Internal(_)) => !infallible && exists|id: OrderId|
                same_but(after, before, id),
            Err(_) => false,
        },
    }
}

/// What a lookup of `id` in the store `orders` answers: the stored order,
/// `NotFound` exactly where there is none, or the store failed.
pub open spec fn order_looked_up(
    orders: Map<OrderId, OrderView>,
    id: OrderId,
    r: Result<Order, AppError>,
    infallible: bool,
) -> bool {
    match r {
        Ok(o) => orders.contains_key(id) && o@ == orders[id],
        Err(AppError::NotFound(m)) => !orders.contains_key(id) && m@ == not_found_text(id),
        Err(AppError::Internal(_)) => !infallible,
        Err(AppError::BadRequest(_)) => false,
    }
}

/// What a listing of the store `orders` answers: every stored order once, or
/// the store failed. Never `NotFound`.
pub open spec fn orders_listed(
    orders: Map<OrderId, OrderView>,
    r: Result<Vec<Order>, AppError>,
    infallible: bool,
) -> bool {
    match r {
        Ok(all) => is_listing(order_views(all@), orders) && all.len() == orders.len(),
        Err(AppError::Internal(_)) => !infallible,
        Err(_) => false,
    }
}

/// What a status update of `id` does, from the store `before` to the store
/// `after`, when it answers `r`: the stored order gets `status` and a time of
/// last change that is strictly later than before and not before its
/// creation, and nothing else of it changes; `NotFound`, and
/// nothing changed, exactly where there is no order; or the store failed,
/// and the other orders are as before.
pub open spec fn status_updated(
    before: Map<OrderId, OrderView>,
    after: Map<OrderId, OrderView>,
    id: OrderId,
    status: OrderStatus,
    r: Result<Order, AppError>,
    infallible: bool,
) -> bool {
    match r {
        Ok(o) => {
            &&& before.contains_key(id)
            &&& o@.is_change_of(before[id], status)
            &&& after == before.insert(id, o@)
        },
        Err(AppError::NotFound(m)) => {
            &&& !before.contains_key(id)
            &&& after == before
            &&& m@ == not_found_text(id)
        },
        Err(AppError::Internal(_)) => !infallible && same_but(after, before, id),
        Err(AppError::BadRequest(_)) => false,
    }
}

/// What a deletion of `id` does, from the store `before` to the store
/// `after`, when it fails with `failure` or succeeds: the order is removed;
/// `NotFound`, and nothing changed, exactly where there is no order; or the
/// store failed, and the other orders are as before.
pub open spec fn order_deleted(
    before: Map<OrderId, OrderView>,
    after: Map<OrderId, OrderView>,
    id: OrderId,
    failure: Option<AppError>,
    infallible: bool,
) -> bool {
    match failure {
        None => before.contains_key(id) && after == before.remove(id),
        Some(AppError::NotFound(m)) => {
            &&& !before.contains_key(id)
            &&& after == before
            &&& m@ == not_found_text(id)
        },
        Some(AppError::Internal(_)) => !infallible && same_but(after, before, id),
        Some(AppError::BadRequest(_)) => false,
    }
}

/// The failure that says that no order is stored under `id`.
pub fn not_found(id: OrderId) -> (e: AppError)
    ensures
        is_not_found(e, id),
{
    AppError::NotFound("order ".to_owned().concat(to_text(id).as_str()))
}

/// The internal failure that stands for a failure of the store.
pub fn internal(cause: &RepoError) -> (e: AppError)
    ensures
        is_internal_for(e, *cause),
{
    AppError::Internal(cause.message())
}

/// What creation answers once the repository has: the order as it was
/// constructed where the repository stored it, an internal failure where the
/// repository failed.
pub fn created_or_internal(
    order: Order,
    stored: Result<Order, RepoError>,
) -> (r: Result<Order, AppError>)
    ensures
        stored is Ok ==> r == Ok::<Order, AppError>(order),
        stored matches Err(cause) ==> r is Err && is_internal_for(r->Err_0, cause),
{
    match stored {
        Ok(_) => Ok(order),
        Err(cause) => Err(internal(&cause)),
    }
}

/// What a lookup or a status update answers once the repository has: the
/// order where there is one, `NotFound` where there is none, an internal
/// failure where the repository failed.
pub fn found_or_missing(
    id: OrderId,
    found: Result<Option<Order>, RepoError>,
) -> (r: Result<Order, AppError>)
    ensures
        found matches Ok(Some(o)) ==> r == Ok::<Order, AppError>(o),
        found matches Ok(None) ==> r is Err && is_not_found(r->Err_0, id),
        found matches Err(cause) ==> r is Err && is_internal_for(r->Err_0, cause),
{
    match found {
        Ok(Some(o)) => Ok(o),
        Ok(None) => Err(not_found(id)),
        Err(cause) => Err(internal(&cause)),
    }
}

/// What a listing answers once the repository has: the orders, or an
/// internal failure where the repository failed. Never `NotFound`.
pub fn listed_or_internal(
    listed: Result<Vec<Order>, RepoError>,
) -> (r: Result<Vec<Order>, AppError>)
    ensures
        listed matches Ok(all) ==> r == Ok::<Vec<Order>, AppError>(all),
        listed matches Err(cause) ==> r is Err && is_internal_for(r->Err_0, cause),
{
    match listed {
        Ok(all) => Ok(all),
        Err(cause) => Err(internal(&cause)),
    }
}

/// What a deletion answers once the repository has: success where an order
/// was removed, `NotFound` where there was none, an internal failure where
/// the repository failed.
pub fn deleted_or_missing(
    id: OrderId,
    deleted: Result<bool, RepoError>,
) -> (r: Result<(), AppError>)
    ensures
        deleted matches Ok(removed) ==> (r is Ok <==> removed),
        deleted matches Ok(false) ==> r is Err && is_not_found(r->Err_0, id),
        deleted matches Err(cause) ==> r is Err && is_internal_for(r->Err_0, cause),
{
    match deleted {
        Ok(true) => Ok(()),
        Ok(false) => Err(not_found(id)),
        Err(cause) => Err(internal(&cause)),
    }
}

/// The operations on orders, over any repository. The service keeps nothing
/// but the repository: every operation is one call to it, after validation
/// in the case of creation.
pub struct OrderService<R: OrderRepository> {
    repo: R,
}

impl<R: OrderRepository> OrderService<R> {
    /// The orders that the repository holds.
    pub closed spec fn orders(&self) -> Map<OrderId, OrderView> {
        self.repo.orders()
    }

    /// A service over `repo`.
    pub fn new(repo: R) -> (service: Self)
        ensures
            service.orders() == repo.orders(),
    {
        OrderService { repo }
    }

    /// Validates the inputs, makes the order and stores it. Inputs that break
    /// a rule give `BadRequest` with the rule's message, and nothing is
    /// stored. Otherwise the order is stored under a fresh identifier and
    /// handed back as it was made, unless the repository fails.
    pub fn create_order(
        &mut self,
        customer_name: String,
        email: String,
        items: Vec<OrderItem>,
    ) -> (r: Result<Order, AppError>)
        ensures
            order_created(
                old(self).orders(),
                final(self).orders(),
                customer_name@,
                email@,
                item_views(items@),
                r,
                R::infallible(),
            ),
    {
        match Order::new(customer_name, email, items) {
            Err(rule) => Err(AppError::BadRequest(rule.message())),
            Ok(order) => {
                let stored = self.repo.create(order.clone());
                proof {
                    if stored is Err {
                        assert(same_but(self.orders(), old(self).orders(), order.id));
                    }
                }
                created_or_internal(order, stored)
            },
        }
    }

    /// The order stored under `id`; `NotFound` where there is none.
    pub fn get_order(&self, id: OrderId) -> (r: Result<Order, AppError>)
        ensures
            order_looked_up(self.orders(), id, r, R::infallible()),
    {
        let found = self.repo.get(id);
        found_or_missing(id, found)
    }

    /// All stored orders, in no particular order. An empty listing is a
    /// success.
    pub fn list_orders(&self) -> (r: Result<Vec<Order>, AppError>)
        ensures
            orders_listed(self.orders(), r, R::infallible()),
    {
        let listed = self.repo.list();
        proof {
            if listed is Ok {
                lemma_listing_counts(order_views(listed->Ok_0@), self.orders());
            }
        }
        listed_or_internal(listed)
    }

    /// Gives the order under `id` the status `status` and a new time of last
    /// change, and hands the updated order back; `NotFound`, and nothing
    /// changed, where there is none. No transition is refused.
    pub fn update_status(
        &mut self,
        id: OrderId,
        status: OrderStatus,
    ) -> (r: Result<Order, AppError>)
        ensures
            status_updated(
                old(self).orders(),
                final(self).orders(),
                id,
                status,
                r,
                R::infallible(),
            ),
    {
        let updated = self.repo.update_status(id, status);
        found_or_missing(id, updated)
    }

    /// Removes the order under `id`; `NotFound`, and nothing changed, where
    /// there is none.
    pub fn delete_order(&mut self, id: OrderId) -> (r: Result<(), AppError>)
        ensures
            order_deleted(
                old(self).orders(),
                final(self).orders(),
                id,
                failure_of(r),
                R::infallible(),
            ),
    {
        let deleted = self.repo.delete(id);
        proof {
            if deleted is Ok && !deleted->Ok_0 {
                assert(old(self).orders().remove(id) =~= old(self).orders());
            }
        }
        deleted_or_missing(id, deleted)
    }
}

} // verus!
