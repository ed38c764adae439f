//! The in-memory repository: orders in a concurrent hash map.

use crate::domain::order::{Order, OrderStatus, OrderView};
use crate::domain::order_id::OrderId;
use crate::ports::order_repository::{
    is_listing, no_orders, order_views, OrderRepository, RepoError,
};
use dashmap::DashMap;
use vstd::prelude::*;

verus! {

/// `dashmap::DashMap`: a hash map that is shared between threads.
#[verifier::external_type_specification]
#[verifier::external_body]
#[verifier::reject_recursive_types(K)]
#[verifier::reject_recursive_types(V)]
#[verifier::reject_recursive_types(S)]
pub struct ExDashMap<K, V, S>(DashMap<K, V, S>);

/// The entries of a map of orders: which keys it holds, and the order under
/// each.
pub uninterp spec fn entries(map: DashMap<OrderId, Order>) -> Map<OrderId, OrderView>;

/// `DashMap::new`: a map without entries.
#[verifier::external_body]
fn map_new() -> (fresh: DashMap<OrderId, Order>)
    ensures
        entries(fresh) == no_orders(),
{
    DashMap::new()
}

/// `DashMap::insert`: afterwards the key holds the value, whatever it held
/// before; the other entries stay. What the key held before comes back.
#[verifier::external_body]
fn map_insert(
    map: &mut DashMap<OrderId, Order>,
    key: OrderId,
    value: Order,
) -> (before: Option<Order>)
    ensures
        entries(*final(map)) == entries(*old(map)).insert(key, value@),
        before is Some <==> entries(*old(map)).contains_key(key),
        before matches Some(o) ==> o@ == entries(*old(map))[key],
    no_unwind
{
    map.insert(key, value)
}

/// `DashMap::get`, the value cloned out of the guard: the value under the
/// key, if the key is held.
#[verifier::external_body]
fn map_get(map: &DashMap<OrderId, Order>, key: OrderId) -> (found: Option<Order>)
    ensures
        found is Some <==> entries(*map).contains_key(key),
        found matches Some(o) ==> o@ == entries(*map)[key],
{
    map.get(&key).map(|entry| entry.value().clone())
}

/// `DashMap::get_mut`, and a write through the guard that it gives: the value
/// under a held key is replaced, and a key that is not held stays so. The
/// other entries stay. Says whether the key was held.
#[verifier::external_body]
fn map_replace(map: &mut DashMap<OrderId, Order>, key: OrderId, value: Order) -> (held: bool)
    ensures
        held == entries(*old(map)).contains_key(key),
        held ==> entries(*final(map)) == entries(*old(map)).insert(key, value@),
        !held ==> entries(*final(map)) == entries(*old(map)),
    no_unwind
{
    match map.get_mut(&key) {
        Some(mut slot) => {
            *slot = value;
            true
        },
        None => false,
    }
}

/// `DashMap::remove`: afterwards the key is not held; the other entries stay.
/// The value that the key held comes back.
#[verifier::external_body]
fn map_remove(map: &mut DashMap<OrderId, Order>, key: OrderId) -> (removed: Option<Order>)
    ensures
        entries(*final(map)) == entries(*old(map)).remove(key),
        removed is Some <==> entries(*old(map)).contains_key(key),
        removed matches Some(o) ==> o@ == entries(*old(map))[key],
    no_unwind
{
    map.remove(&key).map(|pair| pair.1)
}

/// `DashMap::iter`, each entry cloned out as key and value: every held key
/// comes once, with its value, in an order that is not fixed.
#[verifier::external_body]
fn map_pairs(map: &DashMap<OrderId, Order>) -> (pairs: Vec<(OrderId, Order)>)
    ensures
        forall|i: int|
            0 <= i < pairs.len() ==> entries(*map).contains_key((#[trigger] pairs[i]).0)
                && entries(*map)[pairs[i].0] == pairs[i].1@,
        forall|i: int, j: int|
            0 <= i < j < pairs.len() ==> (#[trigger] pairs[i]).0 != (#[trigger] pairs[j]).0,
        forall|key: OrderId| #[trigger]
            entries(*map).contains_key(key) ==> exists|i: int|
                0 <= i < pairs.len() && (#[trigger] pairs[i]).0 == key,
{
    map.iter().map(|entry| (*entry.key(), entry.value().clone())).collect()
}

/// A repository that keeps its orders in memory. Every order is stored under
/// its own identifier; storing a second order under an identifier replaces
/// the first.
pub struct InMemoryRepo {
    map: DashMap<OrderId, Order>,
}

impl InMemoryRepo {
    /// Every order is stored under its own identifier.
    #[verifier::type_invariant]
    spec fn keyed_by_id(self) -> bool {
        forall|id: OrderId| #[trigger]
            entries(self.map).contains_key(id) ==> entries(self.map)[id].id == id
    }

    /// A repository without orders.
    pub fn new() -> (repo: InMemoryRepo)
        ensures
            repo.orders() == no_orders(),
    {
        InMemoryRepo { map: map_new() }
    }
}

impl Default for InMemoryRepo {
    fn default() -> (repo: InMemoryRepo)
        ensures
            repo.orders() == no_orders(),
    {
        InMemoryRepo::new()
    }
}

impl OrderRepository for InMemoryRepo {
    closed spec fn orders(&self) -> Map<OrderId, OrderView> {
        entries(self.map)
    }

    open spec fn infallible() -> bool {
        true
    }

    fn create(&mut self, order: Order) -> (r: Result<Order, RepoError>) {
        proof {
            use_type_invariant(&*self);
        }
        let _ = map_insert(&mut self.map, order.id, order.clone());
        Ok(order)
    }

    fn get(&self, id: OrderId) -> (r: Result<Option<Order>, RepoError>) {
        Ok(map_get(&self.map, id))
    }

    fn list(&self) -> (r: Result<Vec<Order>, RepoError>) {
        proof {
            use_type_invariant(self);
        }
        let pairs = map_pairs(&self.map);
        let ghost held = pairs@;
        let mut all: Vec<Order> = Vec::new();
        for pair in it: pairs
            invariant
                it.seq() == held,
                all.len() == it.index(),
                forall|j: int| 0 <= j < all.len() ==> (#[trigger] all[j])@ == held[j].1@,
        {
            all.push(pair.1);
        }
        proof {
            let views = order_views(all@);
            assert forall|id: OrderId| #[trigger] self.orders().contains_key(id) implies exists|
                k: int,
            | 0 <= k < views.len() && (#[trigger] views[k]).id == id by {
                let k = choose|k: int| 0 <= k < held.len() && (#[trigger] held[k]).0 == id;
                assert(views[k].id == id);
            }
            assert(is_listing(views, self.orders()));
        }
        Ok(all)
    }

    fn update_status(
        &mut self,
        id: OrderId,
        status: OrderStatus,
    ) -> (r: Result<Option<Order>, RepoError>) {
        proof {
            use_type_invariant(&*self);
        }
        match map_get(&self.map, id) {
            None => Ok(None),
            Some(stored) => {
                let mut order = stored;
                order.update_status(status);
                let _ = map_replace(&mut self.map, id, order.clone());
                Ok(Some(order))
            },
        }
    }

    fn delete(&mut self, id: OrderId) -> (r: Result<bool, RepoError>) {
        proof {
            use_type_invariant(&*self);
        }
        Ok(map_remove(&mut self.map, id).is_some())
    }
}

} // verus!
