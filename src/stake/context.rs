//! The instructions of the vesting program, over the account data they read.
//!
//! Each instruction has a `validate` step, run first, and a `process` step. Where an
//! instruction moves tokens, `process` returns the token instructions to carry out;
//! the caller commits them together with the updated accounts, or nothing on error.
use vstd::prelude::*;
use crate::pubkey::{keys_eq, Pubkey};
use crate::stake::error::ProtocolError;
use crate::stake::state::{PoolInfo, PoolParams, PoolUser, STAKE_POOL_VERSION};
use crate::stake::utils::{conversion_ratio, conversion_ratio_spec};
use crate::token::{Mint, TokenAccount, TokenInstruction};

verus! {

pub open spec fn check(cond: bool, e: ProtocolError) -> Result<(), ProtocolError> {
    if cond {
        Ok(())
    } else {
        Err(e)
    }
}

/// Creates a pool.
pub struct Initialize {
    pub owner: Pubkey,
    pub token_mint: Pubkey,
    pub p_token_mint: Pubkey,
    /// The pool account being created.
    pub pool_info: PoolInfo,
}

impl Initialize {
    /// Sets up the pool with `params`, whose start must lie in the future.
    pub fn process(&mut self, params: PoolParams, bump: u8, now: i64) -> (r: Result<
        (),
        ProtocolError,
    >)
        ensures
            r == check(params.starts_at > now, ProtocolError::InvalidParams),
            r is Ok ==> final(self).pool_info == (PoolInfo {
                version: STAKE_POOL_VERSION,
                owner: old(self).owner,
                token_mint: old(self).token_mint,
                p_token_mint: old(self).p_token_mint,
                bump,
                params,
            }),
            r is Ok ==> final(self).owner == old(self).owner && final(self).token_mint == old(
                self,
            ).token_mint && final(self).p_token_mint == old(self).p_token_mint,
            r is Err ==> *final(self) == *old(self),
    {
        if params.starts_at <= now {
            return Err(ProtocolError::InvalidParams);
        }
        self.pool_info.version = STAKE_POOL_VERSION;
        self.pool_info.owner = self.owner;
        self.pool_info.token_mint = self.token_mint;
        self.pool_info.p_token_mint = self.p_token_mint;
        self.pool_info.bump = bump;
        self.pool_info.params = params;
        Ok(())
    }
}

/// Changes a pool's schedule before it starts.
pub struct ModifyParams {
    pub owner: Pubkey,
    pub pool_info: PoolInfo,
}

impl ModifyParams {
    pub open spec fn validate_spec(&self, now: i64) -> Result<(), ProtocolError> {
        if self.pool_info.owner@ != self.owner@ {
            Err(ProtocolError::InvalidOwner)
        } else if self.pool_info.version != STAKE_POOL_VERSION {
            Err(ProtocolError::Uninitialized)
        } else if self.pool_info.params.starts_at <= now {
            Err(ProtocolError::StartTimeFreezed)
        } else {
            Ok(())
        }
    }

    /// Only the owner of an initialized pool that has not started yet may change it.
    pub fn validate(&self, now: i64) -> (r: Result<(), ProtocolError>)
        ensures
            r == self.validate_spec(now),
    {
        if !keys_eq(&self.pool_info.owner, &self.owner) {
            return Err(ProtocolError::InvalidOwner);
        }
        if self.pool_info.version != STAKE_POOL_VERSION {
            return Err(ProtocolError::Uninitialized);
        }
        if self.pool_info.params.starts_at <= now {
            return Err(ProtocolError::StartTimeFreezed);
        }
        Ok(())
    }

    /// Replaces the schedule; the new start must lie in the future and may not come
    /// before the current start.
    pub fn process(&mut self, params: PoolParams, now: i64) -> (r: Result<(), ProtocolError>)
        ensures
            r == check(
                params.starts_at > now && params.starts_at >= old(self).pool_info.params.starts_at,
                ProtocolError::InvalidParams,
            ),
            r is Ok ==> *final(self) == (ModifyParams {
                pool_info: PoolInfo { params, ..old(self).pool_info },
                ..*old(self)
            }),
            r is Err ==> *final(self) == *old(self),
    {
        if params.starts_at <= now || params.starts_at < self.pool_info.params.starts_at {
            return Err(ProtocolError::InvalidParams);
        }
        self.pool_info.params = params;
        Ok(())
    }
}

/// Hands a pool to a new owner.
pub struct SetOwner {
    pub owner: Pubkey,
    pub pool_info: PoolInfo,
}

impl SetOwner {
    pub open spec fn validate_spec(&self) -> Result<(), ProtocolError> {
        if self.pool_info.owner@ != self.owner@ {
            Err(ProtocolError::InvalidOwner)
        } else {
            check(self.pool_info.version == STAKE_POOL_VERSION, ProtocolError::Uninitialized)
        }
    }

    /// Only the owner of an initialized pool may hand it on.
    pub fn validate(&self) -> (r: Result<(), ProtocolError>)
        ensures
            r == self.validate_spec(),
    {
        if !keys_eq(&self.pool_info.owner, &self.owner) {
            return Err(ProtocolError::InvalidOwner);
        }
        if self.pool_info.version != STAKE_POOL_VERSION {
            return Err(ProtocolError::Uninitialized);
        }
        Ok(())
    }

    pub fn process(&mut self, new_owner: Pubkey) -> (r: Result<(), ProtocolError>)
        ensures
            r is Ok,
            *final(self) == (SetOwner {
                pool_info: PoolInfo { owner: new_owner, ..old(self).pool_info },
                ..*old(self)
            }),
    {
        self.pool_info.owner = new_owner;
        Ok(())
    }
}

/// Opens a holder's position in a pool.
pub struct InitializeUser {
    /// Address of the pool.
    pub pool_info_key: Pubkey,
    pub pool_info: PoolInfo,
    /// The position account being created.
    pub user_info: PoolUser,
    pub user_owner: Pubkey,
}

impl InitializeUser {
    pub fn validate(&self) -> (r: Result<(), ProtocolError>)
        ensures
            r == check(self.pool_info.version == STAKE_POOL_VERSION, ProtocolError::Uninitialized),
    {
        if self.pool_info.version != STAKE_POOL_VERSION {
            return Err(ProtocolError::Uninitialized);
        }
        Ok(())
    }

    /// Sets up an empty position of `user_owner` in the pool.
    pub fn process(&mut self) -> (r: Result<(), ProtocolError>)
        ensures
            r is Ok,
            final(self).user_info == (PoolUser {
                pool_info: old(self).pool_info_key,
                owner: old(self).user_owner,
                deposit_amount: 0,
                claimed_amount: 0,
                deposited_at: 0,
                count: 0,
            }),
            final(self).pool_info_key == old(self).pool_info_key,
            final(self).pool_info == old(self).pool_info,
            final(self).user_owner == old(self).user_owner,
    {
        self.user_info.pool_info = self.pool_info_key;
        self.user_info.owner = self.user_owner;
        self.user_info.deposit_amount = 0;
        self.user_info.claimed_amount = 0;
        self.user_info.deposited_at = 0;
        self.user_info.count = 0;
        Ok(())
    }
}

/// Deposits principal into a position; the principal is burnt.
pub struct Deposit {
    pub pool_info_key: Pubkey,
    pub pool_info: PoolInfo,
    pub user_info: PoolUser,
    pub user_owner: Pubkey,
    pub p_token_mint: Pubkey,
    /// Token account the principal comes from.
    pub source: TokenAccount,
    pub user_authority: Pubkey,
}

impl Deposit {
    pub open spec fn validate_spec(&self) -> Result<(), ProtocolError> {
        if self.pool_info.p_token_mint@ != self.p_token_mint@ {
            Err(ProtocolError::InvalidMint)
        } else if self.user_info.pool_info@ != self.pool_info_key@ {
            Err(ProtocolError::InvalidPool)
        } else if self.pool_info.version != STAKE_POOL_VERSION {
            Err(ProtocolError::Uninitialized)
        } else if self.user_info.owner@ != self.user_owner@ {
            Err(ProtocolError::InvalidOwner)
        } else if self.source.mint@ != self.p_token_mint@ {
            Err(ProtocolError::InvalidMint)
        } else {
            check(self.source.owner@ == self.user_authority@, ProtocolError::InvalidOwner)
        }
    }

    pub fn validate(&self) -> (r: Result<(), ProtocolError>)
        ensures
            r == self.validate_spec(),
    {
        if !keys_eq(&self.pool_info.p_token_mint, &self.p_token_mint) {
            return Err(ProtocolError::InvalidMint);
        }
        if !keys_eq(&self.user_info.pool_info, &self.pool_info_key) {
            return Err(ProtocolError::InvalidPool);
        }
        if self.pool_info.version != STAKE_POOL_VERSION {
            return Err(ProtocolError::Uninitialized);
        }
        if !keys_eq(&self.user_info.owner, &self.user_owner) {
            return Err(ProtocolError::InvalidOwner);
        }
        if !keys_eq(&self.source.mint, &self.p_token_mint) {
            return Err(ProtocolError::InvalidMint);
        }
        if !keys_eq(&self.source.owner, &self.user_authority) {
            return Err(ProtocolError::InvalidOwner);
        }
        Ok(())
    }

    /// Adds `amount` to the position at `now` and returns the burn of `amount` from the
    /// source account.
    pub fn process(&mut self, amount: u64, now: i64) -> (r: Result<
        TokenInstruction,
        ProtocolError,
    >)
        ensures
            old(self).source.amount < amount ==> r == Err::<TokenInstruction, ProtocolError>(
                ProtocolError::InsufficientFunds,
            ),
            old(self).source.amount >= amount && amount == 0 ==> r == Err::<
                TokenInstruction,
                ProtocolError,
            >(ProtocolError::InvalidInputValue),
            old(self).source.amount >= amount && amount > 0 ==> match old(self).user_info.deposit_spec(
                amount,
                now,
            ) {
                Ok(u) => r == Ok::<TokenInstruction, ProtocolError>(
                    TokenInstruction::Burn {
                        from: old(self).source.key,
                        mint: old(self).p_token_mint,
                        authority: old(self).user_authority,
                        amount,
                    },
                ) && *final(self) == (Deposit { user_info: u, ..*old(self) }),
                Err(e) => r == Err::<TokenInstruction, ProtocolError>(e),
            },
            r is Err ==> *final(self) == *old(self),
    {
        if self.source.amount < amount {
            return Err(ProtocolError::InsufficientFunds);
        }
        if amount == 0 {
            return Err(ProtocolError::InvalidInputValue);
        }
        self.user_info.deposit(amount, now)?;
        Ok(
            TokenInstruction::Burn {
                from: self.source.key,
                mint: self.p_token_mint,
                authority: self.user_authority,
                amount,
            },
        )
    }
}

/// What a vesting claim hands back to the caller.
pub struct ClaimOutcome {
    /// Minting of the claimed amount to the destination.
    pub mint_to: TokenInstruction,
    /// The position has paid out every period and its account is to be closed.
    pub close_user_info: bool,
}

/// Claims the vested part of a position as newly minted entitlement tokens.
pub struct Claim {
    pub pool_info_key: Pubkey,
    pub pool_info: PoolInfo,
    /// The pool's minting authority.
    pub authority: Pubkey,
    pub token_mint: Pubkey,
    pub user_info: PoolUser,
    pub user_owner: Pubkey,
    pub destination: TokenAccount,
}

impl Claim {
    pub open spec fn validate_spec(&self, now: i64) -> Result<(), ProtocolError> {
        if self.pool_info.token_mint@ != self.token_mint@ {
            Err(ProtocolError::KeyMismatch)
        } else if self.user_info.pool_info@ != self.pool_info_key@ {
            Err(ProtocolError::KeyMismatch)
        } else if self.pool_info.version != STAKE_POOL_VERSION {
            Err(ProtocolError::Uninitialized)
        } else if self.pool_info.params.starts_at >= now {
            Err(ProtocolError::NotClaimable)
        } else if self.user_info.owner@ != self.user_owner@ {
            Err(ProtocolError::KeyMismatch)
        } else {
            check(self.destination.mint@ == self.token_mint@, ProtocolError::KeyMismatch)
        }
    }

    /// The pool must be initialized and started, and the accounts must belong together.
    pub fn validate(&self, now: i64) -> (r: Result<(), ProtocolError>)
        ensures
            r == self.validate_spec(now),
    {
        if !keys_eq(&self.pool_info.token_mint, &self.token_mint) {
            return Err(ProtocolError::KeyMismatch);
        }
        if !keys_eq(&self.user_info.pool_info, &self.pool_info_key) {
            return Err(ProtocolError::KeyMismatch);
        }
        if self.pool_info.version != STAKE_POOL_VERSION {
            return Err(ProtocolError::Uninitialized);
        }
        if self.pool_info.params.starts_at >= now {
            return Err(ProtocolError::NotClaimable);
        }
        if !keys_eq(&self.user_info.owner, &self.user_owner) {
            return Err(ProtocolError::KeyMismatch);
        }
        if !keys_eq(&self.destination.mint, &self.token_mint) {
            return Err(ProtocolError::KeyMismatch);
        }
        Ok(())
    }

    /// Claims at `now`: mints what has vested to the destination, and closes the position
    /// once every period has been paid out.
    pub fn process(&mut self, now: i64) -> (r: Result<ClaimOutcome, ProtocolError>)
        ensures
            match old(self).user_info.claim_spec(old(self).pool_info.params, now) {
                Ok((amount, u)) => r is Ok && r->Ok_0.mint_to == (TokenInstruction::MintTo {
                    mint: old(self).token_mint,
                    to: old(self).destination.key,
                    authority: old(self).authority,
                    amount,
                }) && r->Ok_0.close_user_info == (u.count == old(self).pool_info.params.max_claim_count)
                    && *final(self) == (Claim { user_info: u, ..*old(self) }),
                Err(e) => r == Err::<ClaimOutcome, ProtocolError>(e) && *final(self) == *old(self),
            },
    {
        let claimable_amount = self.user_info.claim(self.pool_info.params, now)?;
        let mint_to = TokenInstruction::MintTo {
            mint: self.token_mint,
            to: self.destination.key,
            authority: self.authority,
            amount: claimable_amount,
        };
        let close_user_info = self.user_info.count == self.pool_info.params.max_claim_count;
        Ok(ClaimOutcome { mint_to, close_user_info })
    }
}

/// Hands the minting authority of the entitlement token to the pool.
pub struct SetMintAuthority {
    pub owner: Pubkey,
    pub pool_info: PoolInfo,
    pub token_mint: Mint,
    /// The pool's authority address, the new minting authority.
    pub authority: Pubkey,
    /// The current minting authority.
    pub origin_authority: Pubkey,
}

impl SetMintAuthority {
    pub open spec fn validate_spec(&self) -> Result<(), ProtocolError> {
        if self.pool_info.token_mint@ != self.token_mint.key@ {
            Err(ProtocolError::InvalidMint)
        } else if self.pool_info.owner@ != self.owner@ {
            Err(ProtocolError::InvalidOwner)
        } else if self.pool_info.version != STAKE_POOL_VERSION {
            Err(ProtocolError::Uninitialized)
        } else {
            match self.token_mint.mint_authority {
                Some(a) => check(a@ == self.origin_authority@, ProtocolError::VarientViolated),
                None => Err(ProtocolError::VarientViolated),
            }
        }
    }

    pub fn validate(&self) -> (r: Result<(), ProtocolError>)
        ensures
            r == self.validate_spec(),
    {
        if !keys_eq(&self.pool_info.token_mint, &self.token_mint.key) {
            return Err(ProtocolError::InvalidMint);
        }
        if !keys_eq(&self.pool_info.owner, &self.owner) {
            return Err(ProtocolError::InvalidOwner);
        }
        if self.pool_info.version != STAKE_POOL_VERSION {
            return Err(ProtocolError::Uninitialized);
        }
        match self.token_mint.mint_authority {
            Some(a) => {
                if !keys_eq(&a, &self.origin_authority) {
                    return Err(ProtocolError::VarientViolated);
                }
                Ok(())
            },
            None => Err(ProtocolError::VarientViolated),
        }
    }

    pub fn process(&self) -> (r: TokenInstruction)
        ensures
            r == (TokenInstruction::SetMintAuthority {
                mint: self.token_mint.key,
                current_authority: self.origin_authority,
                new_authority: self.authority,
            }),
    {
        TokenInstruction::SetMintAuthority {
            mint: self.token_mint.key,
            current_authority: self.origin_authority,
            new_authority: self.authority,
        }
    }
}

/// Hands the minting authority of the entitlement token back from the pool.
pub struct ReclaimMintAuthority {
    pub owner: Pubkey,
    pub pool_info: PoolInfo,
    pub token_mint: Pubkey,
    /// The pool's authority address, the current minting authority.
    pub authority: Pubkey,
}

impl ReclaimMintAuthority {
    pub open spec fn validate_spec(&self) -> Result<(), ProtocolError> {
        if self.pool_info.owner@ != self.owner@ {
            Err(ProtocolError::InvalidOwner)
        } else if self.pool_info.token_mint@ != self.token_mint@ {
            Err(ProtocolError::InvalidMint)
        } else {
            check(self.pool_info.version == STAKE_POOL_VERSION, ProtocolError::Uninitialized)
        }
    }

    pub fn validate(&self) -> (r: Result<(), ProtocolError>)
        ensures
            r == self.validate_spec(),
    {
        if !keys_eq(&self.pool_info.owner, &self.owner) {
            return Err(ProtocolError::InvalidOwner);
        }
        if !keys_eq(&self.pool_info.token_mint, &self.token_mint) {
            return Err(ProtocolError::InvalidMint);
        }
        if self.pool_info.version != STAKE_POOL_VERSION {
            return Err(ProtocolError::Uninitialized);
        }
        Ok(())
    }

    pub fn process(&self, mint_authority: Pubkey) -> (r: TokenInstruction)
        ensures
            r == (TokenInstruction::SetMintAuthority {
                mint: self.token_mint,
                current_authority: self.authority,
                new_authority: mint_authority,
            }),
    {
        TokenInstruction::SetMintAuthority {
            mint: self.token_mint,
            current_authority: self.authority,
            new_authority: mint_authority,
        }
    }
}

/// What vesting principal into the locker hands back to the caller.
pub struct VestOutcome {
    /// Burning of the principal.
    pub burn: TokenInstruction,
    /// Minting of the converted amount into the pool's vault.
    pub mint_to: TokenInstruction,
    /// Amount to lock in the locker, from the vault, for the holder.
    pub lock_amount: u64,
    /// Duration of that lock.
    pub lock_duration: i64,
}

/// Burns principal and locks its conversion in the locker for the holder.
pub struct Vest {
    pub pool_info: PoolInfo,
    pub token_mint: Pubkey,
    pub p_token_mint: Pubkey,
    pub p_token_from: TokenAccount,
    pub user_authority: Pubkey,
    pub token_vault: TokenAccount,
    /// The pool's authority address.
    pub authority: Pubkey,
}

impl Vest {
    pub open spec fn validate_spec(&self, now: i64) -> Result<(), ProtocolError> {
        if self.pool_info.token_mint@ != self.token_mint@ {
            Err(ProtocolError::InvalidMint)
        } else if self.pool_info.p_token_mint@ != self.p_token_mint@ {
            Err(ProtocolError::InvalidMint)
        } else if self.pool_info.version != STAKE_POOL_VERSION {
            Err(ProtocolError::Uninitialized)
        } else if self.pool_info.params.starts_at >= now {
            Err(ProtocolError::NotClaimable)
        } else if self.p_token_from.mint@ != self.p_token_mint@ {
            Err(ProtocolError::InvalidMint)
        } else if self.p_token_from.owner@ != self.user_authority@ {
            Err(ProtocolError::InvalidOwner)
        } else {
            check(self.token_vault.owner@ == self.authority@, ProtocolError::InvalidOwner)
        }
    }

    pub fn validate(&self, now: i64) -> (r: Result<(), ProtocolError>)
        ensures
            r == self.validate_spec(now),
    {
        if !keys_eq(&self.pool_info.token_mint, &self.token_mint) {
            return Err(ProtocolError::InvalidMint);
        }
        if !keys_eq(&self.pool_info.p_token_mint, &self.p_token_mint) {
            return Err(ProtocolError::InvalidMint);
        }
        if self.pool_info.version != STAKE_POOL_VERSION {
            return Err(ProtocolError::Uninitialized);
        }
        if self.pool_info.params.starts_at >= now {
            return Err(ProtocolError::NotClaimable);
        }
        if !keys_eq(&self.p_token_from.mint, &self.p_token_mint) {
            return Err(ProtocolError::InvalidMint);
        }
        if !keys_eq(&self.p_token_from.owner, &self.user_authority) {
            return Err(ProtocolError::InvalidOwner);
        }
        if !keys_eq(&self.token_vault.owner, &self.authority) {
            return Err(ProtocolError::InvalidOwner);
        }
        Ok(())
    }

    /// Burns `amount` principal, mints `amount` times the conversion ratio of `duration`
    /// into the vault, and asks for that many tokens to be locked for `duration`.
    pub fn process(&self, amount: u64, duration: i64) -> (r: Result<VestOutcome, ProtocolError>)
        ensures
            self.p_token_from.amount < amount ==> r == Err::<VestOutcome, ProtocolError>(
                ProtocolError::InsufficientFunds,
            ),
            self.p_token_from.amount >= amount && amount == 0 ==> r == Err::<
                VestOutcome,
                ProtocolError,
            >(ProtocolError::InvalidParams),
            self.p_token_from.amount >= amount && amount > 0 ==> match conversion_ratio_spec(
                duration,
            ) {
                Err(e) => r == Err::<VestOutcome, ProtocolError>(e),
                Ok(ratio) => if amount * ratio > u64::MAX {
                    r == Err::<VestOutcome, ProtocolError>(ProtocolError::MathOverflow)
                } else {
                    r is Ok && r->Ok_0.lock_amount == amount * ratio && r->Ok_0.lock_duration
                        == duration && r->Ok_0.burn == (TokenInstruction::Burn {
                        from: self.p_token_from.key,
                        mint: self.p_token_mint,
                        authority: self.user_authority,
                        amount,
                    }) && r->Ok_0.mint_to == (TokenInstruction::MintTo {
                        mint: self.token_mint,
                        to: self.token_vault.key,
                        authority: self.authority,
                        amount: (amount * ratio) as u64,
                    })
                },
            },
    {
        if self.p_token_from.amount < amount {
            return Err(ProtocolError::InsufficientFunds);
        }
        if amount == 0 {
            return Err(ProtocolError::InvalidParams);
        }
        let burn = TokenInstruction::Burn {
            from: self.p_token_from.key,
            mint: self.p_token_mint,
            authority: self.user_authority,
            amount,
        };
        let ratio = conversion_ratio(duration)?;
        let amount_to_mint = match amount.checked_mul(ratio) {
            Some(v) => v,
            None => return Err(ProtocolError::MathOverflow),
        };
        let mint_to = TokenInstruction::MintTo {
            mint: self.token_mint,
            to: self.token_vault.key,
            authority: self.authority,
            amount: amount_to_mint,
        };
        Ok(VestOutcome { burn, mint_to, lock_amount: amount_to_mint, lock_duration: duration })
    }
}

} // verus!
