//! A receipt of a burnt NFT: a reward that vests along the halving curve.
use vstd::prelude::*;
use crate::pubkey::Pubkey;
use crate::ve_honey::error::ProtocolError;
use crate::ve_honey::escrow::Escrow;
use crate::ve_honey::locker::{fits_i64, Locker, LockerParams};

verus! {

/// The vesting record of one burnt NFT.
#[derive(Clone, Copy, Debug, Default)]
pub struct NftReceipt {
    /// Index of the receipt among its escrow's receipts.
    pub receipt_id: u64,
    /// The locker this receipt belongs to.
    pub locker: Pubkey,
    /// The owner of the receipt.
    pub owner: Pubkey,
    /// When the NFT was locked.
    pub vest_started_at: i64,
    /// When the reward is fully vested.
    pub vest_ends_at: i64,
    /// Reward already paid out.
    pub claimed_amount: u64,
}

impl NftReceipt {
    /// Reward vested at `timestamp` and not yet paid: the curve up to `timestamp` (or the
    /// end of vesting, if earlier) less what was claimed. `None` on overflow or where the
    /// curve gives no value.
    pub open spec fn reward_at_spec(self, params: LockerParams, timestamp: i64) -> Option<u64> {
        let due = if timestamp < self.vest_ends_at {
            timestamp
        } else {
            self.vest_ends_at
        };
        let duration = due - self.vest_started_at;
        if !fits_i64(duration) {
            None
        } else {
            match params.reward_amount_spec(duration) {
                None => None,
                Some(total) => if total < self.claimed_amount {
                    None
                } else {
                    Some((total - self.claimed_amount) as u64)
                },
            }
        }
    }

    /// The receipt, escrow and locker after `claim_amount` is paid out of the escrow.
    pub open spec fn update_spec(self, locker: Locker, escrow: Escrow, claim_amount: u64) -> Result<
        (NftReceipt, Locker, Escrow),
        ProtocolError,
    > {
        if locker.locked_supply < claim_amount || escrow.amount < claim_amount
            || self.claimed_amount + claim_amount > u64::MAX {
            Err(ProtocolError::MathOverflow)
        } else {
            Ok(
                (
                    NftReceipt {
                        claimed_amount: (self.claimed_amount + claim_amount) as u64,
                        ..self
                    },
                    Locker { locked_supply: (locker.locked_supply - claim_amount) as u64, ..locker },
                    Escrow { amount: (escrow.amount - claim_amount) as u64, ..escrow },
                ),
            )
        }
    }

    pub fn update_receipt(&mut self, locker: &mut Locker, escrow: &mut Escrow, claim_amount: u64) -> (r:
        Result<(), ProtocolError>)
        ensures
            match old(self).update_spec(*old(locker), *old(escrow), claim_amount) {
                Ok((n, l, e)) => r is Ok && *final(self) == n && *final(locker) == l
                    && *final(escrow) == e,
                Err(err) => r == Err::<(), ProtocolError>(err) && *final(self) == *old(self)
                    && *final(locker) == *old(locker) && *final(escrow) == *old(escrow),
            },
    {
        let locked_supply = match locker.locked_supply.checked_sub(claim_amount) {
            Some(v) => v,
            None => return Err(ProtocolError::MathOverflow),
        };
        let amount = match escrow.amount.checked_sub(claim_amount) {
            Some(v) => v,
            None => return Err(ProtocolError::MathOverflow),
        };
        let claimed_amount = match self.claimed_amount.checked_add(claim_amount) {
            Some(v) => v,
            None => return Err(ProtocolError::MathOverflow),
        };
        locker.locked_supply = locked_supply;
        escrow.amount = amount;
        self.claimed_amount = claimed_amount;
        Ok(())
    }

    pub fn calculate_reward_amount_at_time(&self, params: &LockerParams, timestamp: i64) -> (r: Option<
        u64,
    >)
        ensures
            r == self.reward_at_spec(*params, timestamp),
    {
        let due = if timestamp < self.vest_ends_at {
            timestamp
        } else {
            self.vest_ends_at
        };
        let duration = match due.checked_sub(self.vest_started_at) {
            Some(d) => d,
            None => return None,
        };
        match params.calculate_reward_amount(duration) {
            Some(total) => total.checked_sub(self.claimed_amount),
            None => None,
        }
    }

    /// Reward not yet paid out of the whole vesting.
    pub fn calculate_remaining_reward_amount(&self, params: &LockerParams) -> (r: Option<u64>)
        ensures
            r == self.reward_at_spec(*params, self.vest_ends_at),
    {
        self.calculate_reward_amount_at_time(params, self.vest_ends_at)
    }

    /// Claiming at `now`: pays what has vested and not been paid, which must not be 0;
    /// an escrow left empty has its lock times cleared.
    pub open spec fn claim_spec(self, locker: Locker, escrow: Escrow, now: i64) -> Result<
        (u64, NftReceipt, Locker, Escrow),
        ProtocolError,
    > {
        match self.reward_at_spec(locker.params, now) {
            None => Err(ProtocolError::MathOverflow),
            Some(due) => if due == 0 {
                Err(ProtocolError::ClaimError)
            } else {
                match self.update_spec(locker, escrow, due) {
                    Err(e) => Err(e),
                    Ok((n, l, e)) => Ok(
                        (
                            due,
                            n,
                            l,
                            if e.amount == 0 {
                                Escrow { escrow_started_at: 0, escrow_ends_at: 0, ..e }
                            } else {
                                e
                            },
                        ),
                    ),
                }
            },
        }
    }

    /// Pays out at `now` the vested reward, and returns the amount paid.
    pub fn claim(&mut self, locker: &mut Locker, escrow: &mut Escrow, now: i64) -> (r: Result<
        u64,
        ProtocolError,
    >)
        ensures
            match old(self).claim_spec(*old(locker), *old(escrow), now) {
                Ok((due, n, l, e)) => r == Ok::<u64, ProtocolError>(due) && *final(self) == n
                    && *final(locker) == l && *final(escrow) == e,
                Err(err) => r == Err::<u64, ProtocolError>(err) && *final(self) == *old(self)
                    && *final(locker) == *old(locker) && *final(escrow) == *old(escrow),
            },
    {
        let claim_amount = match self.calculate_reward_amount_at_time(&locker.params, now) {
            Some(v) => v,
            None => return Err(ProtocolError::MathOverflow),
        };
        if claim_amount == 0 {
            return Err(ProtocolError::ClaimError);
        }
        self.update_receipt(locker, escrow, claim_amount)?;
        if escrow.amount == 0 {
            escrow.escrow_started_at = 0;
            escrow.escrow_ends_at = 0;
        }
        Ok(claim_amount)
    }
}

/// A lock never ends before it starts: locking, locking an NFT, releasing tokens and
/// claiming a receipt all keep `escrow_started_at <= escrow_ends_at`.
pub proof fn lemma_lock_times_stay_ordered(
    escrow: Escrow,
    locker: Locker,
    receipt: NftReceipt,
    amount: u64,
    duration: i64,
    now: i64,
)
    requires
        escrow.escrow_started_at <= escrow.escrow_ends_at,
    ensures
        escrow.lock_spec(locker, amount, duration, now) is Ok ==> escrow.lock_spec(
            locker,
            amount,
            duration,
            now,
        )->Ok_0.0.escrow_started_at <= escrow.lock_spec(locker, amount, duration, now)->Ok_0.0.escrow_ends_at,
        escrow.lock_nft_spec(locker, duration, now) is Ok ==> escrow.lock_nft_spec(
            locker,
            duration,
            now,
        )->Ok_0.0.escrow_started_at <= escrow.lock_nft_spec(locker, duration, now)->Ok_0.0.escrow_ends_at,
        escrow.release_spec(locker, amount) is Ok ==> escrow.release_spec(
            locker,
            amount,
        )->Ok_0.0.escrow_started_at <= escrow.release_spec(locker, amount)->Ok_0.0.escrow_ends_at,
        receipt.claim_spec(locker, escrow, now) is Ok ==> receipt.claim_spec(
            locker,
            escrow,
            now,
        )->Ok_0.3.escrow_started_at <= receipt.claim_spec(locker, escrow, now)->Ok_0.3.escrow_ends_at,
{
}

} // verus!
