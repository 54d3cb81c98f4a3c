use vstd::prelude::*;

verus! {

/// Why bring-up was abandoned. Every one of them is fatal.
#[derive(Clone, Copy, Debug, PartialEq, Eq, Structural)]
pub enum BringUpError {
    /// The PLLs never reported lock.
    ClockLockFailure,
    /// A bus transaction failed while the display was being initialized.
    BusTransactionFailure,
    /// The singleton register set, or a pin, was already taken.
    ResourceAlreadyClaimed,
}

} // verus!
