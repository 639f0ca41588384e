use vstd::prelude::*;

use crate::helpers::constants::{A, CANTIDAD_RELLENO};
use crate::structs::replenisher::ReplenisherState;

verus! {

/// The hot-water container.  It is fed from the mains, so a refill always
/// restores it to full capacity and its reserve never runs out.
#[derive(Debug, PartialEq, Eq, Structural, Clone, Copy)]
pub struct HotWaterContainer {
    /// Amount of hot water available for use.
    pub hot_water: u32,
    /// Amount of hot water already consumed.
    pub used: u32,
    /// Once set, the water heater must stop refilling.
    pub shutdown: bool,
}

impl HotWaterContainer {
    /// The available stock never exceeds the capacity.
    pub open spec fn wf(self) -> bool {
        self.hot_water <= A
    }

    /// The state after serving `amount` units.
    pub open spec fn serve_spec(self, amount: u32) -> HotWaterContainer {
        HotWaterContainer {
            hot_water: (self.hot_water - amount) as u32,
            used: (self.used + amount) as u32,
            ..self
        }
    }

    /// The state after one refill from the mains: back to full capacity.
    pub open spec fn refill_spec(self) -> HotWaterContainer {
        HotWaterContainer { hot_water: A, ..self }
    }

    /// What the water heater does when it observes this state.
    pub open spec fn replenisher_state_spec(self) -> ReplenisherState {
        if self.shutdown {
            ReplenisherState::Shutdown
        } else if self.hot_water > CANTIDAD_RELLENO {
            ReplenisherState::Waiting
        } else {
            ReplenisherState::Refilling
        }
    }

    /// Two serves that fit together commute: the pool ends in the same
    /// state whichever order the two requirements are drawn in.
    pub proof fn lemma_serve_commutes(self, a: u32, b: u32)
        requires
            self.wf(),
            a + b <= self.hot_water,
            self.used + a + b <= u32::MAX,
        ensures
            self.serve_spec(a).serve_spec(b) == self.serve_spec(b).serve_spec(a),
    {
    }

    pub fn new() -> (container: HotWaterContainer)
        ensures
            container.hot_water == A,
            container.used == 0,
            !container.shutdown,
            container.wf(),
    {
        HotWaterContainer { hot_water: A, used: 0, shutdown: false }
    }

    /// Runtime check of the state invariant, for callers outside the
    /// verified world.
    pub fn is_wf(&self) -> (b: bool)
        ensures
            b == self.wf(),
    {
        self.hot_water <= A
    }

    /// Whether the available stock covers a requirement of `amount` units.
    pub fn can_serve(&self, amount: u32) -> (b: bool)
        ensures
            b == (amount <= self.hot_water),
    {
        amount <= self.hot_water
    }

    /// Draw `amount` units: stock shrinks and the consumption counter grows
    /// by exactly that amount.
    pub fn serve(&mut self, amount: u32)
        requires
            old(self).wf(),
            amount <= old(self).hot_water,
            old(self).used + amount <= u32::MAX,
        ensures
            *final(self) == old(self).serve_spec(amount),
            final(self).hot_water == old(self).hot_water - amount,
            final(self).used == old(self).used + amount,
            final(self).shutdown == old(self).shutdown,
            final(self).wf(),
    {
        self.hot_water = self.hot_water - amount;
        self.used = self.used + amount;
    }

    /// One refill step of the water heater: draw water from the mains and
    /// heat it until the container is full again.  The consumption counter
    /// and the shutdown flag are untouched.
    pub fn refill(&mut self)
        ensures
            *final(self) == old(self).refill_spec(),
            final(self).hot_water == A,
            final(self).used == old(self).used,
            final(self).shutdown == old(self).shutdown,
            final(self).wf(),
    {
        self.hot_water = A;
    }

    /// Decide the water heater's next move from the observed state.
    pub fn replenisher_state(&self) -> (state: ReplenisherState)
        ensures
            state == self.replenisher_state_spec(),
    {
        if self.shutdown {
            ReplenisherState::Shutdown
        } else if self.hot_water > CANTIDAD_RELLENO {
            ReplenisherState::Waiting
        } else {
            ReplenisherState::Refilling
        }
    }
}

} // verus!
