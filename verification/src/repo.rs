//! The repository that a deployment without a database runs on.

use crate::domain::order::{Order, OrderStatus, OrderView};
use crate::domain::order_id::OrderId;
use crate::memory::InMemoryRepo;
use crate::ports::order_repository::{no_orders, OrderRepository, RepoError};
use vstd::prelude::*;

verus! {

/// The repository of a deployment: the in-memory store, behind the
/// repository contract.
pub struct Repo {
    memory: InMemoryRepo,
}

/// Builds the repository of a deployment. The in-memory store needs no
/// database, so the URL is not looked at.
pub fn build_repo(database_url: Option<&str>) -> (repo: Repo)
    ensures
        repo.orders() == no_orders(),
{
    Repo::build_repo(database_url)
}

impl Repo {
    /// Builds the repository of a deployment: an in-memory store without
    /// orders.
    pub fn build_repo(_database_url: Option<&str>) -> (repo: Repo)
        ensures
            repo.orders() == no_orders(),
    {
        Repo { memory: InMemoryRepo::new() }
    }
}

impl OrderRepository for Repo {
    closed spec fn orders(&self) -> Map<OrderId, OrderView> {
        self.memory.orders()
    }

    open spec fn infallible() -> bool {
        true
    }

    fn create(&mut self, order: Order) -> (r: Result<Order, RepoError>) {
        self.memory.create(order)
    }

    fn get(&self, id: OrderId) -> (r: Result<Option<Order>, RepoError>) {
        self.memory.get(id)
    }

    fn list(&self) -> (r: Result<Vec<Order>, RepoError>) {
        self.memory.list()
    }

    fn update_status(
        &mut self,
        id: OrderId,
        status: OrderStatus,
    ) -> (r: Result<Option<Order>, RepoError>) {
        self.memory.update_status(id, status)
    }

    fn delete(&mut self, id: OrderId) -> (r: Result<bool, RepoError>) {
        self.memory.delete(id)
    }
}

} // verus!
