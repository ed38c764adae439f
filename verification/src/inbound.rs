//! What comes in from clients.

pub mod http;
