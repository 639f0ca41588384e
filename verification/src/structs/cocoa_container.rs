use vstd::prelude::*;

use crate::helpers::constants::{C, X};

verus! {

/// A plain container of cocoa powder.  It has no reserve and is never
/// refilled: once drained it stays empty.
#[derive(Debug, PartialEq, Eq, Structural, Clone, Copy)]
pub struct CocoaContainer {
    /// Amount of cocoa available for use.
    pub cocoa: u32,
    /// Amount of cocoa already consumed.
    pub used: u32,
}

impl CocoaContainer {
    /// Every reachable state keeps the drawn-down stock and the consumption
    /// counter jointly bounded by the capacity, so `cocoa <= C` and no
    /// counter update can overflow.
    pub open spec fn wf(self) -> bool {
        self.cocoa + self.used <= C
    }

    /// The state after serving `amount` units.
    pub open spec fn serve_spec(self, amount: u32) -> CocoaContainer {
        CocoaContainer {
            cocoa: (self.cocoa - amount) as u32,
            used: (self.used + amount) as u32,
        }
    }

    /// Two serves that fit together commute: the pool ends in the same
    /// state whichever order the two requirements are drawn in.
    pub proof fn lemma_serve_commutes(self, a: u32, b: u32)
        requires
            self.wf(),
            a + b <= self.cocoa,
        ensures
            self.serve_spec(a).serve_spec(b) == self.serve_spec(b).serve_spec(a),
    {
    }

    pub fn new() -> (container: CocoaContainer)
        ensures
            container.cocoa == C,
            container.used == 0,
            container.wf(),
    {
        CocoaContainer { cocoa: C, used: 0 }
    }

    /// Runtime check of the state invariant, for callers outside the
    /// verified world.
    pub fn is_wf(&self) -> (b: bool)
        ensures
            b == self.wf(),
    {
        self.cocoa <= C && self.used <= C - self.cocoa
    }

    /// Whether the available stock covers a requirement of `amount` units.
    pub fn can_serve(&self, amount: u32) -> (b: bool)
        ensures
            b == (amount <= self.cocoa),
    {
        amount <= self.cocoa
    }

    /// Draw `amount` units: stock shrinks and the consumption counter grows
    /// by exactly that amount, so their sum is conserved.
    pub fn serve(&mut self, amount: u32)
        requires
            old(self).wf(),
            amount <= old(self).cocoa,
        ensures
            *final(self) == old(self).serve_spec(amount),
            final(self).cocoa == old(self).cocoa - amount,
            final(self).used == old(self).used + amount,
            final(self).cocoa + final(self).used == old(self).cocoa + old(self).used,
            final(self).wf(),
    {
        self.cocoa = self.cocoa - amount;
        self.used = self.used + amount;
    }

    /// Whether the stock has fallen below `X` percent of the capacity, the
    /// point at which a warning is due.
    pub fn below_alert_threshold(&self) -> (b: bool)
        ensures
            b == (self.cocoa < X * C / 100),
    {
        self.cocoa < X * C / 100
    }
}

} // verus!
