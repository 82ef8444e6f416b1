//! An escrow: one owner's locked tokens in a locker, and the transitions that move
//! tokens in and out of it together with the locker's supply.
use vstd::prelude::*;
use crate::convert::i64_to_u64;
use crate::pubkey::Pubkey;
use crate::ve_honey::error::ProtocolError;
use crate::ve_honey::locker::{fits_i64, Locker, LockerParams};
use crate::ve_honey::nft_receipt::NftReceipt;

verus! {

/// One owner's lock in a locker.
#[derive(Clone, Copy, Debug, Default)]
pub struct Escrow {
    /// The locker this escrow belongs to.
    pub locker: Pubkey,
    /// The owner, who may lock into and withdraw from this escrow.
    pub owner: Pubkey,
    /// Bump seed of the escrow's address.
    pub bump: u8,
    /// The token account holding the locked tokens.
    pub tokens: Pubkey,
    /// Number of tokens locked.
    pub amount: u64,
    /// When the current lock started; 0 when never locked.
    pub escrow_started_at: i64,
    /// When the current lock ends.
    pub escrow_ends_at: i64,
    /// Number of open NFT receipts of this escrow.
    pub receipt_count: u64,
    /// Who may vote with this escrow's voting power.
    pub vote_delegate: Pubkey,
}

impl Escrow {
    /// The escrow and locker after `lock_amount` is added and the lock is set to run from
    /// `started_at` to `ends_at`; with `receipt`, one more NFT receipt is counted.
    pub open spec fn lock_event_spec(
        self,
        locker: Locker,
        lock_amount: u64,
        started_at: i64,
        ends_at: i64,
        receipt: bool,
    ) -> Result<(Escrow, Locker), ProtocolError> {
        if self.amount + lock_amount > u64::MAX || locker.locked_supply + lock_amount > u64::MAX
            || (receipt && self.receipt_count + 1 > u64::MAX) {
            Err(ProtocolError::MathOverflow)
        } else {
            Ok(
                (
                    Escrow {
                        amount: (self.amount + lock_amount) as u64,
                        escrow_started_at: started_at,
                        escrow_ends_at: ends_at,
                        receipt_count: if receipt {
                            (self.receipt_count + 1) as u64
                        } else {
                            self.receipt_count
                        },
                        ..self
                    },
                    Locker { locked_supply: (locker.locked_supply + lock_amount) as u64, ..locker },
                ),
            )
        }
    }

    pub fn update_lock_event(
        &mut self,
        locker: &mut Locker,
        lock_amount: u64,
        next_escrow_started_at: i64,
        next_escrow_ends_at: i64,
        receipt: bool,
    ) -> (r: Result<(), ProtocolError>)
        ensures
            match old(self).lock_event_spec(
                *old(locker),
                lock_amount,
                next_escrow_started_at,
                next_escrow_ends_at,
                receipt,
            ) {
                Ok((e, l)) => r is Ok && *final(self) == e && *final(locker) == l,
                Err(err) => r == Err::<(), ProtocolError>(err) && *final(self) == *old(self)
                    && *final(locker) == *old(locker),
            },
    {
        let amount = match self.amount.checked_add(lock_amount) {
            Some(v) => v,
            None => return Err(ProtocolError::MathOverflow),
        };
        let locked_supply = match locker.locked_supply.checked_add(lock_amount) {
            Some(v) => v,
            None => return Err(ProtocolError::MathOverflow),
        };
        let receipt_count = if receipt {
            match self.receipt_count.checked_add(1) {
                Some(v) => v,
                None => return Err(ProtocolError::MathOverflow),
            }
        } else {
            self.receipt_count
        };
        self.amount = amount;
        self.escrow_started_at = next_escrow_started_at;
        self.escrow_ends_at = next_escrow_ends_at;
        self.receipt_count = receipt_count;
        locker.locked_supply = locked_supply;
        Ok(())
    }

    /// Voting power at `timestamp`; see `LockerParams::voter_power_spec`.
    pub fn voting_power_at_time(&self, params: &LockerParams, timestamp: i64) -> (r: Option<u64>)
        ensures
            r == params.voter_power_spec(*self, timestamp),
    {
        params.calculate_voter_power(self, timestamp)
    }

    /// Voting power at `now`, or `MathOverflow` where it cannot be computed.
    pub fn voting_power(&self, params: &LockerParams, now: i64) -> (r: Result<u64, ProtocolError>)
        ensures
            match params.voter_power_spec(*self, now) {
                Some(p) => r == Ok::<u64, ProtocolError>(p),
                None => r == Err::<u64, ProtocolError>(ProtocolError::MathOverflow),
            },
    {
        match self.voting_power_at_time(params, now) {
            Some(p) => Ok(p),
            None => Err(ProtocolError::MathOverflow),
        }
    }

    /// Locking `amount` more tokens at `now` for `duration`: the duration must lie within
    /// the locker's bounds, and the new end may not come before the current one.
    pub open spec fn lock_spec(self, locker: Locker, amount: u64, duration: i64, now: i64) -> Result<
        (Escrow, Locker),
        ProtocolError,
    > {
        let ends_at = now + duration;
        if duration < 0 || duration < locker.params.min_stake_duration {
            Err(ProtocolError::LockupDurationTooShort)
        } else if duration > locker.params.max_stake_duration {
            Err(ProtocolError::LockupDurationTooLong)
        } else if !fits_i64(ends_at) {
            Err(ProtocolError::MathOverflow)
        } else if self.escrow_ends_at > ends_at {
            Err(ProtocolError::RefreshCannotShorten)
        } else {
            self.lock_event_spec(locker, amount, now, ends_at as i64, false)
        }
    }

    /// Locks `amount` more tokens (0 for a pure refresh) at `now` for `duration`.
    pub fn lock(&mut self, locker: &mut Locker, amount: u64, duration: i64, now: i64) -> (r: Result<
        (),
        ProtocolError,
    >)
        ensures
            match old(self).lock_spec(*old(locker), amount, duration, now) {
                Ok((e, l)) => r is Ok && *final(self) == e && *final(locker) == l,
                Err(err) => r == Err::<(), ProtocolError>(err) && *final(self) == *old(self)
                    && *final(locker) == *old(locker),
            },
    {
        let d = match i64_to_u64(duration) {
            Some(d) => d,
            None => return Err(ProtocolError::LockupDurationTooShort),
        };
        if d < locker.params.min_stake_duration {
            return Err(ProtocolError::LockupDurationTooShort);
        }
        if d > locker.params.max_stake_duration {
            return Err(ProtocolError::LockupDurationTooLong);
        }
        let next_escrow_ends_at = match now.checked_add(duration) {
            Some(v) => v,
            None => return Err(ProtocolError::MathOverflow),
        };
        if self.escrow_ends_at > next_escrow_ends_at {
            return Err(ProtocolError::RefreshCannotShorten);
        }
        self.update_lock_event(locker, amount, now, next_escrow_ends_at, false)
    }

    /// The receipt of an NFT lock made at `now` in the locker at `locker_key`.
    pub open spec fn new_receipt_spec(self, locker_key: Pubkey, params: LockerParams, now: i64) -> NftReceipt {
        NftReceipt {
            receipt_id: self.receipt_count,
            locker: locker_key,
            owner: self.owner,
            vest_started_at: now,
            vest_ends_at: (now + params.nft_max_stake_duration_spec()) as i64,
            claimed_amount: 0,
        }
    }

    /// Locking an NFT at `now` for `duration`: the duration must cover a whole NFT lock;
    /// the whole reward is locked up front and the lock is extended to the end of the
    /// reward's vesting, which may not shorten it.
    pub open spec fn lock_nft_spec(self, locker: Locker, duration: i64, now: i64) -> Result<
        (Escrow, Locker),
        ProtocolError,
    > {
        let p = locker.params;
        let nft_duration = p.nft_max_stake_duration_spec();
        let ends_at = now + nft_duration;
        if !fits_i64(nft_duration) {
            Err(ProtocolError::MathOverflow)
        } else if duration < nft_duration {
            Err(ProtocolError::LockupDurationTooShort)
        } else if !fits_i64(ends_at) {
            Err(ProtocolError::MathOverflow)
        } else if self.escrow_ends_at > ends_at {
            Err(ProtocolError::RefreshCannotShorten)
        } else if p.max_reward_amount_spec() is None {
            Err(ProtocolError::MathOverflow)
        } else {
            self.lock_event_spec(locker, p.max_reward_amount_spec()->Some_0, now, ends_at as i64, true)
        }
    }

    /// Locks an NFT at `now`: returns the new receipt and the reward moved from the
    /// treasury into the escrow.
    pub fn lock_nft(&mut self, locker: &mut Locker, locker_key: Pubkey, duration: i64, now: i64) -> (r:
        Result<(NftReceipt, u64), ProtocolError>)
        ensures
            match old(self).lock_nft_spec(*old(locker), duration, now) {
                Ok((e, l)) => r is Ok && *final(self) == e && *final(locker) == l && r->Ok_0.0
                    == old(self).new_receipt_spec(locker_key, old(locker).params, now) && r->Ok_0.1
                    == old(locker).params.max_reward_amount_spec()->Some_0
                    && final(self).escrow_ends_at >= r->Ok_0.0.vest_ends_at,
                Err(err) => r == Err::<(NftReceipt, u64), ProtocolError>(err) && *final(self)
                    == *old(self) && *final(locker) == *old(locker),
            },
    {
        let nft_duration = match locker.params.calculate_nft_max_stake_duration() {
            Some(d) => d,
            None => return Err(ProtocolError::MathOverflow),
        };
        if duration < nft_duration {
            return Err(ProtocolError::LockupDurationTooShort);
        }
        let vest_ends_at = match now.checked_add(nft_duration) {
            Some(v) => v,
            None => return Err(ProtocolError::MathOverflow),
        };
        let next_escrow_ends_at = vest_ends_at;
        if self.escrow_ends_at > next_escrow_ends_at {
            return Err(ProtocolError::RefreshCannotShorten);
        }
        let max_reward_amount = match locker.params.calculate_max_reward_amount() {
            Some(v) => v,
            None => return Err(ProtocolError::MathOverflow),
        };
        let receipt = NftReceipt {
            receipt_id: self.receipt_count,
            locker: locker_key,
            owner: self.owner,
            vest_started_at: now,
            vest_ends_at,
            claimed_amount: 0,
        };
        self.update_lock_event(locker, max_reward_amount, now, next_escrow_ends_at, true)?;
        Ok((receipt, max_reward_amount))
    }

    /// Taking `unlock` tokens out of the escrow and out of the locker's supply; nothing
    /// to take out is an error. An escrow left empty has its lock times cleared.
    pub open spec fn release_spec(self, locker: Locker, unlock: u64) -> Result<
        (Escrow, Locker),
        ProtocolError,
    > {
        if unlock == 0 {
            Err(ProtocolError::EscrowNoBalance)
        } else if self.amount < unlock || locker.locked_supply < unlock {
            Err(ProtocolError::MathOverflow)
        } else {
            Ok(
                (
                    if self.amount == unlock {
                        Escrow { amount: 0, escrow_started_at: 0, escrow_ends_at: 0, ..self }
                    } else {
                        Escrow { amount: (self.amount - unlock) as u64, ..self }
                    },
                    Locker { locked_supply: (locker.locked_supply - unlock) as u64, ..locker },
                ),
            )
        }
    }

    /// Takes `unlock_amount` tokens out of the escrow and the locker's supply.
    pub fn release(&mut self, locker: &mut Locker, unlock_amount: u64) -> (r: Result<
        (),
        ProtocolError,
    >)
        ensures
            match old(self).release_spec(*old(locker), unlock_amount) {
                Ok((e, l)) => r is Ok && *final(self) == e && *final(locker) == l,
                Err(err) => r == Err::<(), ProtocolError>(err) && *final(self) == *old(self)
                    && *final(locker) == *old(locker),
            },
    {
        if unlock_amount == 0 {
            return Err(ProtocolError::EscrowNoBalance);
        }
        let amount = match self.amount.checked_sub(unlock_amount) {
            Some(v) => v,
            None => return Err(ProtocolError::MathOverflow),
        };
        let locked_supply = match locker.locked_supply.checked_sub(unlock_amount) {
            Some(v) => v,
            None => return Err(ProtocolError::MathOverflow),
        };
        self.amount = amount;
        if amount == 0 {
            self.escrow_started_at = 0;
            self.escrow_ends_at = 0;
        }
        locker.locked_supply = locked_supply;
        Ok(())
    }

    /// Moving `amount` from `from` into this escrow, which takes over the lock times of
    /// `from`.
    pub open spec fn transfer_spec(self, from: Escrow, amount: u64) -> Result<
        (Escrow, Escrow),
        ProtocolError,
    > {
        if self.amount + amount > u64::MAX || from.amount < amount {
            Err(ProtocolError::MathOverflow)
        } else {
            Ok(
                (
                    Escrow {
                        amount: (self.amount + amount) as u64,
                        escrow_started_at: from.escrow_started_at,
                        escrow_ends_at: from.escrow_ends_at,
                        ..self
                    },
                    Escrow { amount: (from.amount - amount) as u64, ..from },
                ),
            )
        }
    }

    /// Moves `transfer_amount` from `from` into this escrow, with the lock times of `from`.
    pub fn update_transfer_event(&mut self, from: &mut Escrow, transfer_amount: u64) -> (r: Result<
        (),
        ProtocolError,
    >)
        ensures
            match old(self).transfer_spec(*old(from), transfer_amount) {
                Ok((d, f)) => r is Ok && *final(self) == d && *final(from) == f,
                Err(err) => r == Err::<(), ProtocolError>(err) && *final(self) == *old(self)
                    && *final(from) == *old(from),
            },
    {
        let amount = match self.amount.checked_add(transfer_amount) {
            Some(v) => v,
            None => return Err(ProtocolError::MathOverflow),
        };
        let from_amount = match from.amount.checked_sub(transfer_amount) {
            Some(v) => v,
            None => return Err(ProtocolError::MathOverflow),
        };
        self.amount = amount;
        self.escrow_started_at = from.escrow_started_at;
        self.escrow_ends_at = from.escrow_ends_at;
        from.amount = from_amount;
        Ok(())
    }
}

/// No-shorten: a lock or an NFT lock that succeeds never moves the end of the lock
/// backwards, and one whose new end would come before the current end fails with
/// `RefreshCannotShorten`.
pub proof fn lemma_lock_never_shortens(escrow: Escrow, locker: Locker, amount: u64, duration: i64, now: i64)
    ensures
        escrow.lock_spec(locker, amount, duration, now) is Ok ==> escrow.lock_spec(
            locker,
            amount,
            duration,
            now,
        )->Ok_0.0.escrow_ends_at >= escrow.escrow_ends_at,
        escrow.lock_nft_spec(locker, duration, now) is Ok ==> escrow.lock_nft_spec(
            locker,
            duration,
            now,
        )->Ok_0.0.escrow_ends_at >= escrow.escrow_ends_at,
        (locker.params.min_stake_duration <= duration <= locker.params.max_stake_duration
            && fits_i64(now + duration) && now + duration < escrow.escrow_ends_at)
            ==> escrow.lock_spec(locker, amount, duration, now) == Err::<(Escrow, Locker), ProtocolError>(
            ProtocolError::RefreshCannotShorten,
        ),
        ({
            let nft_duration = locker.params.nft_max_stake_duration_spec();
            &&& fits_i64(nft_duration)
            &&& duration >= nft_duration
            &&& fits_i64(now + nft_duration)
            &&& now + nft_duration < escrow.escrow_ends_at
        }) ==> escrow.lock_nft_spec(locker, duration, now) == Err::<(Escrow, Locker), ProtocolError>(
            ProtocolError::RefreshCannotShorten,
        ),
{
}

/// A lock within the locker's bounds that does not shorten the current lock adds the
/// same amount to the escrow and to the locker's supply, and runs from `now` for
/// `duration`.
pub proof fn lemma_lock_adds_to_escrow_and_supply(
    escrow: Escrow,
    locker: Locker,
    amount: u64,
    duration: i64,
    now: i64,
)
    requires
        locker.params.min_stake_duration <= duration <= locker.params.max_stake_duration,
        fits_i64(now + duration),
        now + duration >= escrow.escrow_ends_at,
        escrow.amount + amount <= u64::MAX,
        locker.locked_supply + amount <= u64::MAX,
    ensures
        escrow.lock_spec(locker, amount, duration, now) is Ok,
        escrow.lock_spec(locker, amount, duration, now)->Ok_0.0.amount == escrow.amount + amount,
        escrow.lock_spec(locker, amount, duration, now)->Ok_0.1.locked_supply == locker.locked_supply
            + amount,
        escrow.lock_spec(locker, amount, duration, now)->Ok_0.0.escrow_started_at == now,
        escrow.lock_spec(locker, amount, duration, now)->Ok_0.0.escrow_ends_at == now + duration,
{
}

} // verus!
