use vstd::prelude::*;

verus! {

/// Every way an operation of the engine can fail. A failed operation leaves
/// the ledger exactly as it was.
#[derive(Debug, Clone, Copy, PartialEq, Eq, Structural)]
pub enum SlotError {
    /// The ledger was set up before.
    AlreadyInitialized,
    /// The owner identifier is not a well-formed account identifier.
    InvalidOwner,
    /// The balance does not cover one stake unit.
    InsufficientCredits,
    /// The new balance would not fit in 128 bits.
    Overflow,
}

} // verus!
