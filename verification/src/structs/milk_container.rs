use vstd::prelude::*;

use crate::helpers::constants::{CANTIDAD_RELLENO, E, L, X};
use crate::structs::replenisher::ReplenisherState;

verus! {

/// The milk container: a milk-foam pool drawn down by orders, backed by a
/// finite reserve of cold milk that the frother turns into foam.  The
/// reserve itself is never restocked.
#[derive(Debug, PartialEq, Eq, Structural, Clone, Copy)]
pub struct MilkContainer {
    /// Amount of cold milk left to froth.
    pub cold_milk_container: u32,
    /// Amount of milk foam available for use.
    pub milk_foam_container: u32,
    /// Amount of cold milk already frothed.
    pub cold_milk_used: u32,
    /// Amount of milk foam already consumed.
    pub milk_foam_used: u32,
    /// Once set, the frother must stop refilling.
    pub shutdown: bool,
}

impl MilkContainer {
    /// The milk-foam stock never exceeds its capacity, and the counters
    /// stay low enough that no transition can overflow: a frothing step
    /// conserves `cold_milk_container + cold_milk_used` as well as
    /// `milk_foam_container + milk_foam_used + cold_milk_container`, and a
    /// serve conserves both too.
    pub open spec fn wf(self) -> bool {
        &&& self.milk_foam_container <= E
        &&& self.cold_milk_container + self.cold_milk_used <= u32::MAX
        &&& self.milk_foam_container + self.milk_foam_used
            + self.cold_milk_container <= u32::MAX
    }

    /// The amount a frothing step moves from the cold-milk reserve into the
    /// foam container: as much as fits, capped by what is left.
    pub open spec fn froth_amount(self) -> u32 {
        if self.cold_milk_container <= E - self.milk_foam_container {
            self.cold_milk_container
        } else {
            (E - self.milk_foam_container) as u32
        }
    }

    /// The state after one frothing step.
    pub open spec fn refill_spec(self) -> MilkContainer {
        let d = self.froth_amount();
        MilkContainer {
            cold_milk_container: (self.cold_milk_container - d) as u32,
            milk_foam_container: (self.milk_foam_container + d) as u32,
            cold_milk_used: (self.cold_milk_used + d) as u32,
            ..self
        }
    }

    /// The state after serving `amount` units of milk foam.
    pub open spec fn serve_spec(self, amount: u32) -> MilkContainer {
        MilkContainer {
            milk_foam_container: (self.milk_foam_container - amount) as u32,
            milk_foam_used: (self.milk_foam_used + amount) as u32,
            ..self
        }
    }

    /// What the frother does when it observes this state.
    pub open spec fn replenisher_state_spec(self) -> ReplenisherState {
        if self.shutdown {
            ReplenisherState::Shutdown
        } else if self.milk_foam_container > CANTIDAD_RELLENO {
            ReplenisherState::Waiting
        } else if self.cold_milk_container == 0 {
            ReplenisherState::RawExhausted
        } else {
            ReplenisherState::Refilling
        }
    }

    /// Two serves that fit together commute: the pool ends in the same
    /// state whichever order the two requirements are drawn in.
    pub proof fn lemma_serve_commutes(self, a: u32, b: u32)
        requires
            self.wf(),
            a + b <= self.milk_foam_container,
        ensures
            self.serve_spec(a).serve_spec(b) == self.serve_spec(b).serve_spec(a),
    {
    }

    pub fn new() -> (container: MilkContainer)
        ensures
            container.cold_milk_container == L,
            container.milk_foam_container == E,
            container.cold_milk_used == 0,
            container.milk_foam_used == 0,
            !container.shutdown,
            container.wf(),
    {
        MilkContainer {
            cold_milk_container: L,
            milk_foam_container: E,
            cold_milk_used: 0,
            milk_foam_used: 0,
            shutdown: false,
        }
    }

    /// Runtime check of the state invariant, for callers outside the
    /// verified world.
    pub fn is_wf(&self) -> (b: bool)
        ensures
            b == self.wf(),
    {
        self.milk_foam_container <= E
            && self.cold_milk_container as u64 + self.cold_milk_used as u64 <= u32::MAX as u64
            && self.milk_foam_container as u64 + self.milk_foam_used as u64
                + self.cold_milk_container as u64 <= u32::MAX as u64
    }

    /// Whether the stock on hand covers a requirement of `amount` units.
    pub fn can_serve(&self, amount: u32) -> (b: bool)
        ensures
            b == (amount <= self.milk_foam_container),
    {
        amount <= self.milk_foam_container
    }

    /// Whether the stock plus everything the reserve could still yield
    /// covers a requirement of `amount` units.  When this is false the
    /// requirement is permanently unsatisfiable.
    pub fn can_ever_serve(&self, amount: u32) -> (b: bool)
        requires
            self.wf(),
        ensures
            b == (amount <= self.milk_foam_container + self.cold_milk_container),
    {
        amount <= self.milk_foam_container + self.cold_milk_container
    }

    /// Draw `amount` units of milk foam: stock shrinks and the consumption
    /// counter grows by exactly that amount, so their sum is conserved; the
    /// cold-milk reserve is untouched.
    pub fn serve(&mut self, amount: u32)
        requires
            old(self).wf(),
            amount <= old(self).milk_foam_container,
        ensures
            *final(self) == old(self).serve_spec(amount),
            final(self).milk_foam_container == old(self).milk_foam_container - amount,
            final(self).milk_foam_used == old(self).milk_foam_used + amount,
            final(self).cold_milk_container == old(self).cold_milk_container,
            final(self).cold_milk_used == old(self).cold_milk_used,
            final(self).shutdown == old(self).shutdown,
            final(self).wf(),
    {
        self.milk_foam_container = self.milk_foam_container - amount;
        self.milk_foam_used = self.milk_foam_used + amount;
    }

    /// One frothing step: move as much cold milk as fits into the foam
    /// container.  The reserve is conserved (`cold_milk_container +
    /// cold_milk_used` is unchanged), the foam stock never exceeds its
    /// capacity, and with an empty reserve nothing moves at all.
    pub fn refill(&mut self)
        requires
            old(self).wf(),
        ensures
            *final(self) == old(self).refill_spec(),
            final(self).cold_milk_container + final(self).cold_milk_used
                == old(self).cold_milk_container + old(self).cold_milk_used,
            final(self).milk_foam_container
                == old(self).milk_foam_container + old(self).froth_amount(),
            final(self).milk_foam_used == old(self).milk_foam_used,
            final(self).cold_milk_used >= old(self).cold_milk_used,
            final(self).shutdown == old(self).shutdown,
            old(self).cold_milk_container == 0
                ==> *final(self) == *old(self),
            final(self).wf(),
    {
        let d = if self.cold_milk_container <= E - self.milk_foam_container {
            self.cold_milk_container
        } else {
            E - self.milk_foam_container
        };
        self.milk_foam_container = self.milk_foam_container + d;
        self.cold_milk_container = self.cold_milk_container - d;
        self.cold_milk_used = self.cold_milk_used + d;
    }

    /// Decide the frother's next move from the observed state.
    pub fn replenisher_state(&self) -> (state: ReplenisherState)
        ensures
            state == self.replenisher_state_spec(),
    {
        if self.shutdown {
            ReplenisherState::Shutdown
        } else if self.milk_foam_container > CANTIDAD_RELLENO {
            ReplenisherState::Waiting
        } else if self.cold_milk_container == 0 {
            ReplenisherState::RawExhausted
        } else {
            ReplenisherState::Refilling
        }
    }

    /// Whether the cold-milk reserve has fallen below `X` percent of its
    /// capacity, the point at which a warning is due.
    pub fn reserve_below_alert_threshold(&self) -> (b: bool)
        ensures
            b == (self.cold_milk_container < X * L / 100),
    {
        self.cold_milk_container < X * L / 100
    }
}

} // verus!
