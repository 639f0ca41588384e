//! A concurrency-free core for a coffee-shop order fulfillment simulator.
//!
//! Four finite ingredient pools (ground coffee with a raw-bean reserve, hot
//! water, cocoa, and milk foam with a cold-milk reserve) are drawn down by
//! customer orders and topped up by replenishment steps.  Every state
//! transition of a pool, of an order, and of the machine as a whole is an
//! ordinary function on plain values with a verified contract; the threads,
//! locks and condition variables that drive those transitions concurrently
//! live outside this crate.

pub mod helpers;
pub mod structs;
