//! What the application asks of the outside world.

pub mod order_repository;
