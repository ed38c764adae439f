//! Order management: the order entity and its rules, the repository contract,
//! an in-memory repository and the service that runs on any repository.

pub mod application;
pub mod config;
pub mod domain;
pub mod errors;
pub mod inbound;
pub mod laws;
pub mod memory;
pub mod ports;
pub mod repo;
pub mod sqlite;
pub mod text;
