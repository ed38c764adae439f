//! The order entity, its parts and its construction rules.

pub mod order;
pub mod order_id;
pub mod timestamp;
