//! The repository contract: what every store of orders must do.

use crate::domain::order::{Order, OrderStatus, OrderView};
use crate::domain::order_id::OrderId;
use vstd::prelude::*;
use vstd::string::StringExecFns;

verus! {

/// The one way in which a repository fails: the store itself did.
#[derive(Debug)]
pub enum RepoError {
    DbError(String),
}

impl RepoError {
    /// The text of this failure: `db error: ` and the store's own words.
    pub open spec fn text(self) -> Seq<char> {
        "db error: "@ + self->DbError_0@
    }

    /// The text of this failure.
    pub fn message(&self) -> (s: String)
        ensures
            s@ == self.text(),
    {
        match self {
            RepoError::DbError(detail) => "db error: ".to_owned().concat(detail.as_str()),
        }
    }
}

/// The views of a sequence of orders, in the same order.
pub open spec fn order_views(all: Seq<Order>) -> Seq<OrderView> {
    all.map_values(|o: Order| o@)
}

/// A store without orders.
pub open spec fn no_orders() -> Map<OrderId, OrderView> {
    Map::empty()
}

/// Whether `all` lists the stored orders: each stored order once, under its
/// own identifier, and nothing else. The order of the listing is free.
pub open spec fn is_listing(all: Seq<OrderView>, orders: Map<OrderId, OrderView>) -> bool {
    &&& forall|i: int|
        0 <= i < all.len() ==> {
            &&& orders.contains_key((#[trigger] all[i]).id)
            &&& orders[all[i].id] == all[i]
        }
    &&& forall|i: int, j: int|
        0 <= i < j < all.len() ==> (#[trigger] all[i]).id != (#[trigger] all[j]).id
    &&& forall|id: OrderId| #[trigger]
        orders.contains_key(id) ==> exists|i: int|
            0 <= i < all.len() && (#[trigger] all[i]).id == id
}

/// A listing has one entry for each stored order: as many entries as the
/// store holds orders.
pub proof fn lemma_listing_counts(all: Seq<OrderView>, orders: Map<OrderId, OrderView>)
    requires
        is_listing(all, orders),
    ensures
        orders.dom().finite(),
        orders.dom().len() == all.len(),
{
    let ids = all.map_values(|o: OrderView| o.id);
    assert(ids.no_duplicates()) by {
        assert forall|i: int, j: int|
            0 <= i < ids.len() && 0 <= j < ids.len() && i != j implies ids[i] != ids[j] by {
            if i < j {
                assert(all[i].id != all[j].id);
            } else {
                assert(all[j].id != all[i].id);
            }
        }
    }
    assert(ids.to_set() =~= orders.dom()) by {
        assert forall|id: OrderId| ids.to_set().contains(id) <==> orders.dom().contains(id) by {
            if ids.to_set().contains(id) {
                let i = choose|i: int| 0 <= i < ids.len() && ids[i] == id;
                assert(orders.contains_key(all[i].id));
            }
            if orders.contains_key(id) {
                let i = choose|i: int| 0 <= i < all.len() && (#[trigger] all[i]).id == id;
                assert(ids[i] == id);
            }
        }
    }
    ids.unique_seq_to_set();
    vstd::seq_lib::seq_to_set_is_finite(ids);
}

/// Whether two stores agree on every order but the one under `id`.
pub open spec fn same_but(
    after: Map<OrderId, OrderView>,
    before: Map<OrderId, OrderView>,
    id: OrderId,
) -> bool {
    after.remove(id) == before.remove(id)
}

/// A store of orders by identifier. Each operation is one atomic step on the
/// stored orders; absence is an answer, not a failure. A failure of the store
/// leaves every order but the one addressed as it was.
pub trait OrderRepository {
    /// The stored orders, by identifier.
    open spec fn orders(&self) -> Map<OrderId, OrderView> {
        arbitrary()
    }

    /// Whether this kind of store never fails. A store that does not say so
    /// may fail.
    open spec fn infallible() -> bool {
        false
    }

    /// Stores `order` under its identifier and hands it back. The rules of
    /// the domain are not checked again.
    fn create(&mut self, order: Order) -> (r: Result<Order, RepoError>)
        ensures
            r matches Ok(stored) ==> stored@ == order@,
            r is Ok ==> final(self).orders() == old(self).orders().insert(order.id, order@),
            r is Err ==> same_but(final(self).orders(), old(self).orders(), order.id),
            r is Err ==> !Self::infallible(),
    ;

    /// The order stored under `id`, or `None` where there is none.
    fn get(&self, id: OrderId) -> (r: Result<Option<Order>, RepoError>)
        ensures
            r matches Ok(found) ==> (found is Some <==> self.orders().contains_key(id)),
            r matches Ok(Some(o)) ==> o@ == self.orders()[id],
            r is Err ==> !Self::infallible(),
    ;

    /// All stored orders, in no particular order.
    fn list(&self) -> (r: Result<Vec<Order>, RepoError>)
        ensures
            r matches Ok(all) ==> is_listing(order_views(all@), self.orders()),
            r is Err ==> !Self::infallible(),
    ;

    /// Gives the order under `id` the status `status` and a new time of last
    /// change, strictly later than the time before and not before the
    /// creation, stores it and hands it back; `None`, and nothing changed,
    /// where no order is stored under `id`.
    fn update_status(
        &mut self,
        id: OrderId,
        status: OrderStatus,
    ) -> (r: Result<Option<Order>, RepoError>)
        ensures
            r matches Ok(found) ==> (found is Some <==> old(self).orders().contains_key(id)),
            r matches Ok(Some(o)) ==> o@.is_change_of(old(self).orders()[id], status),
            r matches Ok(Some(o)) ==> final(self).orders() == old(self).orders().insert(id, o@),
            r matches Ok(None) ==> final(self).orders() == old(self).orders(),
            r is Err ==> same_but(final(self).orders(), old(self).orders(), id),
            r is Err ==> !Self::infallible(),
    ;

    /// Removes the order under `id` and says whether there was one.
    fn delete(&mut self, id: OrderId) -> (r: Result<bool, RepoError>)
        ensures
            r matches Ok(removed) ==> removed == old(self).orders().contains_key(id),
            r is Ok ==> final(self).orders() == old(self).orders().remove(id),
            r is Err ==> same_but(final(self).orders(), old(self).orders(), id),
            r is Err ==> !Self::infallible(),
    ;
}

} // verus!
