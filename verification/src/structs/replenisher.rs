use vstd::prelude::*;

verus! {

/// The state of a replenisher task, decided each time it observes its pool
/// under the pool's lock.  `Waiting` and `Refilling` continue the task's
/// loop; the two other states end it.
#[derive(Debug, PartialEq, Eq, Structural, Clone, Copy)]
pub enum ReplenisherState {
    /// The pool is well stocked and not shut down: keep waiting.
    Waiting,
    /// The pool is low and can be topped up: perform a refill.
    Refilling,
    /// The raw reserve is exhausted: replenishment is permanently over.
    RawExhausted,
    /// Shutdown was signaled: the task terminates normally.
    Shutdown,
}

} // verus!
