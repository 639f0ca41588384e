pub mod cocoa_container;
pub mod coffee_container;
pub mod coffee_maker;
pub mod hot_water_container;
pub mod milk_container;
pub mod order;
pub mod statistics_values;
pub mod replenisher;
