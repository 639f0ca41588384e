use vstd::prelude::*;

verus! {

/// The failures the coordination core can report.
#[derive(Debug, PartialEq, Eq, Structural, Clone, Copy)]
pub enum CustomError {
    /// The order file could not be opened.
    CantOpenOrderFile,
    /// The path of the order file is invalid.
    InvalidOrderFilePath,
    /// Some value in an order record is invalid.
    InvalidOrderValue,
    /// A lock could not be acquired because a holder panicked.
    PoisonedLock,
    /// The shutdown signal could not be delivered to every task.
    InvalidShutDown,
    /// A pool cannot ever supply what an order requires.
    InsufficientIngredients,
    /// A test failed because of an execution error.
    TestFailing,
}

} // verus!
