//! Verified decision logic of the cart, recommendation and synthetic-workload
//! services: connection caching for the cart store, the database round trip
//! of the synthetic workload, address and port handling at start-up.

pub mod address;
pub mod connection;
pub mod port;
pub mod roundtrip;
pub mod settings;
pub mod workload;
