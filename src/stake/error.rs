use vstd::prelude::*;

verus! {

/// Failures of the linear-vesting program.
#[derive(Clone, Copy, Debug, PartialEq, Eq, Structural)]
pub enum ProtocolError {
    Uninitialized,
    InvalidParams,
    StartTimeFreezed,
    InvalidOwner,
    InvalidMint,
    InvalidPool,
    InsufficientFunds,
    NotClaimable,
    VarientViolated,
    InvalidInputValue,
    MathOverflow,
    /// Two accounts that must be the same are not.
    KeyMismatch,
}

} // verus!
