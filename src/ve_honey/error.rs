use vstd::prelude::*;

verus! {

/// Failures of the locker program.
#[derive(Clone, Copy, Debug, PartialEq, Eq, Structural)]
pub enum ProtocolError {
    InvalidLocker,
    InvalidLockerMint,
    InvalidLockerWLMint,
    InvalidAccountOwner,
    InvalidTokenOwner,
    InvalidToken,
    InvalidAssociatedTokenAccount,
    InvalidRemainingAccounts,
    InvalidProofType,
    InvalidProof,
    InvalidGovernorParams,
    InvalidVoteDelegate,
    InvalidProgramId,
    EscrowNotEnded,
    EscrowExpired,
    EscrowInUse,
    EscrowNoBalance,
    LockupDurationTooShort,
    LockupDurationTooLong,
    RefreshCannotShorten,
    ClaimError,
    CloseNonZeroReceipt,
    ReceiptCountError,
    ReceiptNotEnded,
    MustProvideWhitelist,
    ProgramNotWhitelisted,
    EscrowOwnerNotWhitelisted,
    ProgramIdMustBeExecutable,
    NoProofProvided,
    GovernorMismatch,
    SmartWalletMismatch,
    ProposalMismatch,
    VoterMismatch,
    MetadataMismatch,
    ProposalMustBeActive,
    InsufficientVotingPower,
    LockedSupplyMismatch,
    InvariantViolated,
    /// A checked arithmetic operation overflowed.
    MathOverflow,
    /// Two accounts that must be the same are not.
    KeyMismatch,
}

} // verus!
