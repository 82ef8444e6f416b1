//! Migration of a locker of the first schema, which had no governance threshold and no
//! NFT reward, into the current schema.
use vstd::prelude::*;
use crate::pubkey::{keys_eq, Pubkey};
use crate::token::TokenInstruction;
use crate::ve_honey::error::ProtocolError;
use crate::ve_honey::escrow::Escrow;
use crate::ve_honey::locker::{Locker, LockerParams};

verus! {

/// Parameters of a first-schema locker.
#[derive(Clone, Copy, Debug, Default, PartialEq, Eq, Structural)]
pub struct LegacyLockerParams {
    pub min_stake_duration: u64,
    pub max_stake_duration: u64,
    pub whitelist_enabled: bool,
    pub multiplier: u8,
}

/// A first-schema locker, governed by an administrator.
#[derive(Clone, Copy, Debug, Default)]
pub struct LegacyLocker {
    pub base: Pubkey,
    pub bump: u8,
    pub token_mint: Pubkey,
    pub locked_supply: u64,
    pub admin: Pubkey,
    pub params: LegacyLockerParams,
}

/// The fields that the current schema adds, each given explicitly by the migration.
#[derive(Clone, Copy, Debug)]
pub struct AddedLockerFields {
    pub wl_token_mint: Pubkey,
    pub proposal_activation_min_votes: u64,
    pub nft_stake_duration_unit: i64,
    pub nft_stake_base_reward: u64,
    pub nft_stake_duration_count: u8,
    pub nft_reward_halving_starts_at: u8,
}

/// Moves a first-schema locker to a new base and a governor.
pub struct MigrateLocker {
    pub locker: LegacyLocker,
    pub new_base: Pubkey,
    pub governor: Pubkey,
}

impl MigrateLocker {
    /// The current-schema locker: every old field carried over one for one, the supply
    /// unchanged, and the added fields as given.
    pub fn process(&self, bump: u8, added: AddedLockerFields) -> (r: Locker)
        ensures
            r == (Locker {
                base: self.new_base,
                bump,
                token_mint: self.locker.token_mint,
                locked_supply: self.locker.locked_supply,
                wl_token_mint: added.wl_token_mint,
                governor: self.governor,
                params: LockerParams {
                    min_stake_duration: self.locker.params.min_stake_duration,
                    max_stake_duration: self.locker.params.max_stake_duration,
                    whitelist_enabled: self.locker.params.whitelist_enabled,
                    multiplier: self.locker.params.multiplier,
                    proposal_activation_min_votes: added.proposal_activation_min_votes,
                    nft_stake_duration_unit: added.nft_stake_duration_unit,
                    nft_stake_base_reward: added.nft_stake_base_reward,
                    nft_stake_duration_count: added.nft_stake_duration_count,
                    nft_reward_halving_starts_at: added.nft_reward_halving_starts_at,
                },
            }),
    {
        Locker {
            base: self.new_base,
            bump,
            token_mint: self.locker.token_mint,
            locked_supply: self.locker.locked_supply,
            wl_token_mint: added.wl_token_mint,
            governor: self.governor,
            params: LockerParams {
                min_stake_duration: self.locker.params.min_stake_duration,
                max_stake_duration: self.locker.params.max_stake_duration,
                whitelist_enabled: self.locker.params.whitelist_enabled,
                multiplier: self.locker.params.multiplier,
                proposal_activation_min_votes: added.proposal_activation_min_votes,
                nft_stake_duration_unit: added.nft_stake_duration_unit,
                nft_stake_base_reward: added.nft_stake_base_reward,
                nft_stake_duration_count: added.nft_stake_duration_count,
                nft_reward_halving_starts_at: added.nft_reward_halving_starts_at,
            },
        }
    }
}

/// An escrow of a first-schema locker.
#[derive(Clone, Copy, Debug, Default)]
pub struct LegacyEscrow {
    pub locker: Pubkey,
    pub owner: Pubkey,
    pub bump: u8,
    pub tokens: Pubkey,
    pub amount: u64,
    pub escrow_started_at: i64,
    pub escrow_ends_at: i64,
}

/// What migrating an escrow hands back to the caller.
pub struct MigrateEscrowOutcome {
    /// The escrow account to create under the new locker.
    pub escrow: Escrow,
    /// Transfer of the locked tokens to the new escrow's token account; none when empty.
    pub transfer: Option<TokenInstruction>,
    /// Closing of the old token account; none when empty.
    pub close: Option<TokenInstruction>,
}

/// Moves an escrow of a first-schema locker under its migrated locker.
pub struct MigrateEscrow {
    pub payer: Pubkey,
    pub locker_admin: Pubkey,
    pub old_locker: LegacyLocker,
    pub new_locker_key: Pubkey,
    pub new_locker: Locker,
    pub old_escrow_key: Pubkey,
    pub old_escrow: LegacyEscrow,
    pub old_locked_tokens: Pubkey,
    pub new_locked_tokens: Pubkey,
    pub escrow_owner: Pubkey,
}

impl MigrateEscrow {
    pub open spec fn validate_spec(&self) -> Result<(), ProtocolError> {
        if self.escrow_owner@ != self.old_escrow.owner@ || self.locker_admin@ != self.old_locker.admin@
            || self.locker_admin@ != self.new_locker.governor@ || self.old_locked_tokens@
            != self.old_escrow.tokens@ {
            Err(ProtocolError::KeyMismatch)
        } else {
            Ok(())
        }
    }

    /// The old locker's administrator, who governs the new locker, migrates an owner's escrow.
    pub fn validate(&self) -> (r: Result<(), ProtocolError>)
        ensures
            r == self.validate_spec(),
    {
        if !keys_eq(&self.escrow_owner, &self.old_escrow.owner) {
            return Err(ProtocolError::KeyMismatch);
        }
        if !keys_eq(&self.locker_admin, &self.old_locker.admin) {
            return Err(ProtocolError::KeyMismatch);
        }
        if !keys_eq(&self.locker_admin, &self.new_locker.governor) {
            return Err(ProtocolError::KeyMismatch);
        }
        if !keys_eq(&self.old_locked_tokens, &self.old_escrow.tokens) {
            return Err(ProtocolError::KeyMismatch);
        }
        Ok(())
    }

    /// The new escrow keeps the amount and the lock times; `new_tokens` is its token
    /// account for the new locker's mint, which must be the one supplied.
    pub fn process(&self, bump: u8, new_tokens: Pubkey) -> (r: Result<MigrateEscrowOutcome, ProtocolError>)
        ensures
            new_tokens@ != self.new_locked_tokens@ ==> r is Err && r->Err_0
                == ProtocolError::KeyMismatch,
            new_tokens@ == self.new_locked_tokens@ ==> {
                &&& r is Ok
                &&& r->Ok_0.escrow == (Escrow {
                    locker: self.new_locker_key,
                    owner: self.old_escrow.owner,
                    bump,
                    tokens: new_tokens,
                    amount: self.old_escrow.amount,
                    escrow_started_at: self.old_escrow.escrow_started_at,
                    escrow_ends_at: self.old_escrow.escrow_ends_at,
                    receipt_count: 0,
                    vote_delegate: self.escrow_owner,
                })
                &&& r->Ok_0.transfer == if self.old_escrow.amount > 0 {
                    Some(
                        TokenInstruction::Transfer {
                            from: self.old_locked_tokens,
                            to: self.new_locked_tokens,
                            authority: self.old_escrow_key,
                            amount: self.old_escrow.amount,
                        },
                    )
                } else {
                    None
                }
                &&& r->Ok_0.close == if self.old_escrow.amount > 0 {
                    Some(
                        TokenInstruction::CloseAccount {
                            account: self.old_locked_tokens,
                            destination: self.payer,
                            authority: self.old_escrow_key,
                        },
                    )
                } else {
                    None
                }
            },
    {
        if !keys_eq(&new_tokens, &self.new_locked_tokens) {
            return Err(ProtocolError::KeyMismatch);
        }
        let (transfer, close) = if self.old_escrow.amount > 0 {
            (
                Some(
                    TokenInstruction::Transfer {
                        from: self.old_locked_tokens,
                        to: self.new_locked_tokens,
                        authority: self.old_escrow_key,
                        amount: self.old_escrow.amount,
                    },
                ),
                Some(
                    TokenInstruction::CloseAccount {
                        account: self.old_locked_tokens,
                        destination: self.payer,
                        authority: self.old_escrow_key,
                    },
                ),
            )
        } else {
            (None, None)
        };
        let escrow = Escrow {
            locker: self.new_locker_key,
            owner: self.old_escrow.owner,
            bump,
            tokens: new_tokens,
            amount: self.old_escrow.amount,
            escrow_started_at: self.old_escrow.escrow_started_at,
            escrow_ends_at: self.old_escrow.escrow_ends_at,
            receipt_count: 0,
            vote_delegate: self.escrow_owner,
        };
        Ok(MigrateEscrowOutcome { escrow, transfer, close })
    }
}

} // verus!
