//! The application core: the operations that clients are offered.

pub mod order_service;
