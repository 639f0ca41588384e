use vstd::prelude::*;

verus! {

/// The counters shared with the statistics reporter.
#[derive(Debug, PartialEq, Eq, Structural, Clone, Copy)]
pub struct StatisticsValues {
    /// Number of orders that were completed.
    pub orders_served: u32,
    /// Once set, the statistics reporter must stop after one last report.
    pub shutdown: bool,
}

impl StatisticsValues {
    pub fn new() -> (statistics: StatisticsValues)
        ensures
            statistics.orders_served == 0,
            !statistics.shutdown,
    {
        StatisticsValues { orders_served: 0, shutdown: false }
    }

    /// Count one more completed order.
    pub fn record_served(&mut self)
        requires
            old(self).orders_served < u32::MAX,
        ensures
            final(self).orders_served == old(self).orders_served + 1,
            final(self).shutdown == old(self).shutdown,
    {
        self.orders_served = self.orders_served + 1;
    }
}

} // verus!
