use vstd::prelude::*;

verus! {

/// Capacity of the raw coffee-bean reserve.
pub const G: u32 = 500;

/// Capacity of the ground-coffee container.
pub const M: u32 = 100;

/// Capacity of the cold-milk reserve.
pub const L: u32 = 500;

/// Capacity of the milk-foam container.
pub const E: u32 = 100;

/// Capacity of the cocoa container.
pub const C: u32 = 100;

/// Capacity of the hot-water container.
pub const A: u32 = 100;

/// Percentage of a reserve's capacity below which a warning is due.
pub const X: u32 = 25;

/// Milliseconds between two statistics reports.
pub const TIME_TO_STATS: u64 = 5000;

/// Stock level at or below which a container must be refilled.
pub const CANTIDAD_RELLENO: u32 = 30;

/// Milliseconds taken to accept one order.
pub const TAKE_ORDER_TIME: u64 = 500;

/// Milliseconds taken to serve ground coffee.
pub const SERVE_COFFEE_TIME: u64 = 5000;

/// Milliseconds taken to serve milk foam.
pub const SERVE_MILK_FOAM_TIME: u64 = 1000;

/// Milliseconds taken to serve hot water.
pub const SERVE_HOT_WATER_TIME: u64 = 1000;

/// Milliseconds taken to serve cocoa.
pub const SERVE_COCOA_TIME: u64 = 1000;

/// Milliseconds taken to grind beans into the ground-coffee container.
pub const REFILL_COFFEE_TIME: u64 = 1000;

/// Milliseconds taken to froth cold milk into the foam container.
pub const REFILL_MILK_TIME: u64 = 1000;

/// Milliseconds taken to draw and heat water.
pub const REFILL_WATER_TIME: u64 = 1000;

} // verus!
