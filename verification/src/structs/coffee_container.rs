use vstd::prelude::*;

use crate::helpers::constants::{CANTIDAD_RELLENO, G, M, X};
use crate::structs::replenisher::ReplenisherState;

verus! {

/// The coffee container: a ground-coffee pool drawn down by orders, backed
/// by a finite reserve of raw beans that the grinder turns into ground
/// coffee.  The reserve itself is never restocked.
#[derive(Debug, PartialEq, Eq, Structural, Clone, Copy)]
pub struct CoffeeContainer {
    /// Amount of raw coffee beans left to grind.
    pub coffee_grains_container: u32,
    /// Amount of ground coffee available for use.
    pub ground_coffee_container: u32,
    /// Amount of raw coffee beans already ground.
    pub coffee_grains_used: u32,
    /// Amount of ground coffee already consumed.
    pub ground_coffee_used: u32,
    /// Once set, the grinder must stop refilling.
    pub shutdown: bool,
}

impl CoffeeContainer {
    /// The ground-coffee stock never exceeds its capacity, and the counters
    /// stay low enough that no transition can overflow: a grind conserves
    /// `coffee_grains_container + coffee_grains_used` as well as
    /// `ground_coffee_container + ground_coffee_used + coffee_grains_container`,
    /// and a serve conserves both too.
    pub open spec fn wf(self) -> bool {
        &&& self.ground_coffee_container <= M
        &&& self.coffee_grains_container + self.coffee_grains_used <= u32::MAX
        &&& self.ground_coffee_container + self.ground_coffee_used
            + self.coffee_grains_container <= u32::MAX
    }

    /// The amount a grind step moves from the bean reserve into the
    /// ground-coffee container: as much as fits, capped by what is left.
    pub open spec fn grind_amount(self) -> u32 {
        if self.coffee_grains_container <= M - self.ground_coffee_container {
            self.coffee_grains_container
        } else {
            (M - self.ground_coffee_container) as u32
        }
    }

    /// The state after one grind step.
    pub open spec fn refill_spec(self) -> CoffeeContainer {
        let d = self.grind_amount();
        CoffeeContainer {
            coffee_grains_container: (self.coffee_grains_container - d) as u32,
            ground_coffee_container: (self.ground_coffee_container + d) as u32,
            coffee_grains_used: (self.coffee_grains_used + d) as u32,
            ..self
        }
    }

    /// The state after serving `amount` units of ground coffee.
    pub open spec fn serve_spec(self, amount: u32) -> CoffeeContainer {
        CoffeeContainer {
            ground_coffee_container: (self.ground_coffee_container - amount) as u32,
            ground_coffee_used: (self.ground_coffee_used + amount) as u32,
            ..self
        }
    }

    /// What the grinder does when it observes this state.
    pub open spec fn replenisher_state_spec(self) -> ReplenisherState {
        if self.shutdown {
            ReplenisherState::Shutdown
        } else if self.ground_coffee_container > CANTIDAD_RELLENO {
            ReplenisherState::Waiting
        } else if self.coffee_grains_container == 0 {
            ReplenisherState::RawExhausted
        } else {
            ReplenisherState::Refilling
        }
    }

    /// Two serves that fit together commute: the pool ends in the same
    /// state whichever order the two requirements are drawn in.
    pub proof fn lemma_serve_commutes(self, a: u32, b: u32)
        requires
            self.wf(),
            a + b <= self.ground_coffee_container,
        ensures
            self.serve_spec(a).serve_spec(b) == self.serve_spec(b).serve_spec(a),
    {
    }

    pub fn new() -> (container: CoffeeContainer)
        ensures
            container.coffee_grains_container == G,
            container.ground_coffee_container == M,
            container.coffee_grains_used == 0,
            container.ground_coffee_used == 0,
            !container.shutdown,
            container.wf(),
    {
        CoffeeContainer {
            coffee_grains_container: G,
            ground_coffee_container: M,
            coffee_grains_used: 0,
            ground_coffee_used: 0,
            shutdown: false,
        }
    }

    /// Runtime check of the state invariant, for callers outside the
    /// verified world.
    pub fn is_wf(&self) -> (b: bool)
        ensures
            b == self.wf(),
    {
        self.ground_coffee_container <= M
            && self.coffee_grains_container as u64 + self.coffee_grains_used as u64
                <= u32::MAX as u64
            && self.ground_coffee_container as u64 + self.ground_coffee_used as u64
                + self.coffee_grains_container as u64 <= u32::MAX as u64
    }

    /// Whether the stock on hand covers a requirement of `amount` units.
    pub fn can_serve(&self, amount: u32) -> (b: bool)
        ensures
            b == (amount <= self.ground_coffee_container),
    {
        amount <= self.ground_coffee_container
    }

    /// Whether the stock plus everything the reserve could still yield
    /// covers a requirement of `amount` units.  When this is false the
    /// requirement is permanently unsatisfiable.
    pub fn can_ever_serve(&self, amount: u32) -> (b: bool)
        requires
            self.wf(),
        ensures
            b == (amount <= self.ground_coffee_container + self.coffee_grains_container),
    {
        amount <= self.ground_coffee_container + self.coffee_grains_container
    }

    /// Draw `amount` units of ground coffee: stock shrinks and the
    /// consumption counter grows by exactly that amount, so their sum is
    /// conserved; the bean reserve is untouched.
    pub fn serve(&mut self, amount: u32)
        requires
            old(self).wf(),
            amount <= old(self).ground_coffee_container,
        ensures
            *final(self) == old(self).serve_spec(amount),
            final(self).ground_coffee_container == old(self).ground_coffee_container - amount,
            final(self).ground_coffee_used == old(self).ground_coffee_used + amount,
            final(self).coffee_grains_container == old(self).coffee_grains_container,
            final(self).coffee_grains_used == old(self).coffee_grains_used,
            final(self).shutdown == old(self).shutdown,
            final(self).wf(),
    {
        self.ground_coffee_container = self.ground_coffee_container - amount;
        self.ground_coffee_used = self.ground_coffee_used + amount;
    }

    /// One grind step: move as many beans as fit into the ground-coffee
    /// container.  The reserve is conserved (`coffee_grains_container +
    /// coffee_grains_used` is unchanged), the ground-coffee stock never
    /// exceeds its capacity, and with an empty reserve nothing moves at all.
    pub fn refill(&mut self)
        requires
            old(self).wf(),
        ensures
            *final(self) == old(self).refill_spec(),
            final(self).coffee_grains_container + final(self).coffee_grains_used
                == old(self).coffee_grains_container + old(self).coffee_grains_used,
            final(self).ground_coffee_container
                == old(self).ground_coffee_container + old(self).grind_amount(),
            final(self).ground_coffee_used == old(self).ground_coffee_used,
            final(self).coffee_grains_used >= old(self).coffee_grains_used,
            final(self).shutdown == old(self).shutdown,
            old(self).coffee_grains_container == 0
                ==> *final(self) == *old(self),
            final(self).wf(),
    {
        let d = if self.coffee_grains_container <= M - self.ground_coffee_container {
            self.coffee_grains_container
        } else {
            M - self.ground_coffee_container
        };
        self.ground_coffee_container = self.ground_coffee_container + d;
        self.coffee_grains_container = self.coffee_grains_container - d;
        self.coffee_grains_used = self.coffee_grains_used + d;
    }

    /// Decide the grinder's next move from the observed state.
    pub fn replenisher_state(&self) -> (state: ReplenisherState)
        ensures
            state == self.replenisher_state_spec(),
    {
        if self.shutdown {
            ReplenisherState::Shutdown
        } else if self.ground_coffee_container > CANTIDAD_RELLENO {
            ReplenisherState::Waiting
        } else if self.coffee_grains_container == 0 {
            ReplenisherState::RawExhausted
        } else {
            ReplenisherState::Refilling
        }
    }

    /// Whether the bean reserve has fallen below `X` percent of its
    /// capacity, the point at which a warning is due.
    pub fn reserve_below_alert_threshold(&self) -> (b: bool)
        ensures
            b == (self.coffee_grains_container < X * G / 100),
    {
        self.coffee_grains_container < X * G / 100
    }
}

} // verus!
