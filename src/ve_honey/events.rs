//! Records of what the locker's instructions did, for the caller to publish.
use vstd::prelude::*;
use crate::pubkey::Pubkey;
use crate::ve_honey::locker::LockerParams;

verus! {

/// Published by `lock`.
#[derive(Clone, Copy, Debug)]
pub struct LockEvent {
    pub locker: Pubkey,
    pub escrow_owner: Pubkey,
    pub token_mint: Pubkey,
    /// Tokens added to the escrow.
    pub amount: u64,
    /// Tokens locked in the locker after the lock.
    pub locker_supply: u64,
    pub duration: i64,
    pub prev_escrow_ends_at: i64,
    pub next_escrow_ends_at: i64,
    pub next_escrow_started_at: i64,
}

/// Published by `exit`.
#[derive(Clone, Copy, Debug)]
pub struct ExitEscrowEvent {
    pub escrow_owner: Pubkey,
    pub locker: Pubkey,
    pub timestamp: i64,
    /// Tokens locked in the locker after the exit.
    pub locked_supply: u64,
    /// Tokens left in the escrow after the exit.
    pub released_amount: u64,
}

/// Published by `init_locker`.
#[derive(Clone, Copy, Debug)]
pub struct InitLockerEvent {
    pub locker: Pubkey,
    pub token_mint: Pubkey,
    pub governor: Pubkey,
    pub params: LockerParams,
}

/// Published by `init_escrow`.
#[derive(Clone, Copy, Debug)]
pub struct InitEscrowEvent {
    pub escrow: Pubkey,
    pub escrow_owner: Pubkey,
    pub locker: Pubkey,
    pub timestamp: i64,
}

/// Published by `set_vote_delegate`.
#[derive(Clone, Copy, Debug)]
pub struct SetVoteDelegateEvent {
    pub escrow_owner: Pubkey,
    pub old_delegate: Pubkey,
    pub new_delegate: Pubkey,
}

/// Published when a program is whitelisted.
#[derive(Clone, Copy, Debug)]
pub struct ApproveLockPrivilegeEvent {
    pub locker: Pubkey,
    pub program_id: Pubkey,
    pub owner: Pubkey,
    pub timestamp: i64,
}

/// Published when a program leaves the whitelist.
#[derive(Clone, Copy, Debug)]
pub struct RevokeLockPrivilegeEvent {
    pub locker: Pubkey,
    pub program_id: Pubkey,
    pub timestamp: i64,
}

/// Published when tokens move from one escrow to another.
#[derive(Clone, Copy, Debug)]
pub struct TransferEvent {
    pub locker: Pubkey,
    pub source_escrow: Pubkey,
    pub source_escrow_owner: Pubkey,
    /// Tokens left in the source after the transfer.
    pub source_balance: u64,
    pub destination_escrow: Pubkey,
    pub destination_escrow_owner: Pubkey,
    /// Tokens in the destination after the transfer.
    pub destination_balance: u64,
    pub amount: u64,
    pub timestamp: i64,
}

} // verus!
