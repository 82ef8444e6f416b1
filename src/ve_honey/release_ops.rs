//! The instructions that take tokens out of an escrow, and that close receipts and escrows.
use vstd::prelude::*;
use crate::pubkey::{keys_eq, Pubkey};
use crate::token::{TokenAccount, TokenInstruction};
use crate::ve_honey::error::ProtocolError;
use crate::ve_honey::escrow::Escrow;
use crate::ve_honey::events::{ExitEscrowEvent, TransferEvent};
use crate::ve_honey::lock_ops::check;
use crate::ve_honey::locker::Locker;
use crate::ve_honey::nft_receipt::NftReceipt;

verus! {

/// What an exit hands back to the caller.
pub struct ExitOutcome {
    /// Transfer of the released tokens to the destination.
    pub transfer: TokenInstruction,
    pub event: ExitEscrowEvent,
}

/// Takes out of an ended escrow everything that its open receipts do not still owe.
pub struct Exit {
    pub locker_key: Pubkey,
    pub locker: Locker,
    pub escrow_key: Pubkey,
    pub escrow: Escrow,
    pub escrow_owner: Pubkey,
    pub locked_tokens: TokenAccount,
    pub destination_tokens: TokenAccount,
}

impl Exit {
    pub open spec fn validate_spec(&self, now: i64) -> Result<(), ProtocolError> {
        if self.locker_key@ != self.escrow.locker@ {
            Err(ProtocolError::KeyMismatch)
        } else if self.escrow.owner@ != self.escrow_owner@ {
            Err(ProtocolError::KeyMismatch)
        } else if self.escrow.tokens@ != self.locked_tokens.key@ {
            Err(ProtocolError::KeyMismatch)
        } else if self.escrow.escrow_ends_at >= now {
            Err(ProtocolError::EscrowNotEnded)
        } else {
            check(self.locked_tokens.key@ != self.destination_tokens.key@, ProtocolError::KeyMismatch)
        }
    }

    /// The accounts must belong together and the lock must have ended before `now`.
    pub fn validate(&self, now: i64) -> (r: Result<(), ProtocolError>)
        ensures
            r == self.validate_spec(now),
    {
        if !keys_eq(&self.locker_key, &self.escrow.locker) {
            return Err(ProtocolError::KeyMismatch);
        }
        if !keys_eq(&self.escrow.owner, &self.escrow_owner) {
            return Err(ProtocolError::KeyMismatch);
        }
        if !keys_eq(&self.escrow.tokens, &self.locked_tokens.key) {
            return Err(ProtocolError::KeyMismatch);
        }
        if self.escrow.escrow_ends_at >= now {
            return Err(ProtocolError::EscrowNotEnded);
        }
        if keys_eq(&self.locked_tokens.key, &self.destination_tokens.key) {
            return Err(ProtocolError::KeyMismatch);
        }
        Ok(())
    }

    /// The reward still owed by the first `n` receipts, or the first failure among them.
    pub open spec fn receipts_scan(self, receipts: Seq<NftReceipt>, n: nat) -> Result<
        int,
        ProtocolError,
    >
        decreases n,
    {
        if n == 0 {
            Ok(0)
        } else {
            match self.receipts_scan(receipts, (n - 1) as nat) {
                Err(e) => Err(e),
                Ok(total) => {
                    let r = receipts[n - 1];
                    if r.owner@ != self.escrow_owner@ {
                        Err(ProtocolError::InvalidAccountOwner)
                    } else if r.locker@ != self.locker_key@ {
                        Err(ProtocolError::InvalidLocker)
                    } else if exists|j: int|
                        0 <= j < n - 1 && #[trigger] receipts[j].receipt_id == r.receipt_id {
                        Err(ProtocolError::InvariantViolated)
                    } else {
                        match r.reward_at_spec(self.locker.params, r.vest_ends_at) {
                            None => Err(ProtocolError::MathOverflow),
                            Some(x) => if total + x > u64::MAX {
                                Err(ProtocolError::MathOverflow)
                            } else {
                                Ok(total + x)
                            },
                        }
                    }
                },
            }
        }
    }

    /// What may leave the escrow: its amount less what its receipts still owe. There must
    /// be exactly one receipt per open receipt of the escrow, each of this owner and this
    /// locker, with distinct ids.
    pub open spec fn check_receipts_spec(self, receipts: Seq<NftReceipt>) -> Result<
        u64,
        ProtocolError,
    > {
        if receipts.len() != self.escrow.receipt_count {
            Err(ProtocolError::InvalidRemainingAccounts)
        } else {
            match self.receipts_scan(receipts, receipts.len()) {
                Err(e) => Err(e),
                Ok(total) => if self.escrow.amount < total {
                    Err(ProtocolError::MathOverflow)
                } else {
                    Ok((self.escrow.amount - total) as u64)
                },
            }
        }
    }

    proof fn lemma_scan_err_persists(self, receipts: Seq<NftReceipt>, n: nat, m: nat)
        requires
            n <= m,
        ensures
            self.receipts_scan(receipts, n) is Err ==> self.receipts_scan(receipts, m)
                == self.receipts_scan(receipts, n),
        decreases m,
    {
        if n < m {
            self.lemma_scan_err_persists(receipts, n, (m - 1) as nat);
        }
    }

    pub fn check_receipts(&self, receipts: &Vec<NftReceipt>) -> (r: Result<u64, ProtocolError>)
        ensures
            r == self.check_receipts_spec(receipts@),
    {
        if receipts.len() as u64 != self.escrow.receipt_count {
            return Err(ProtocolError::InvalidRemainingAccounts);
        }
        let mut remaining_amount: u64 = 0;
        let mut i: usize = 0;
        while i < receipts.len()
            invariant
                0 <= i <= receipts@.len(),
                receipts@.len() == self.escrow.receipt_count,
                self.receipts_scan(receipts@, i as nat) == Ok::<int, ProtocolError>(
                    remaining_amount as int,
                ),
            decreases receipts@.len() - i,
        {
            let receipt = receipts[i];
            proof {
                self.lemma_scan_err_persists(receipts@, (i + 1) as nat, receipts@.len());
            }
            if !keys_eq(&receipt.owner, &self.escrow_owner) {
                return Err(ProtocolError::InvalidAccountOwner);
            }
            if !keys_eq(&receipt.locker, &self.locker_key) {
                return Err(ProtocolError::InvalidLocker);
            }
            let mut j: usize = 0;
            while j < i
                invariant
                    0 <= j <= i < receipts@.len(),
                    receipts@.len() == self.escrow.receipt_count,
                    receipt == receipts@[i as int],
                    receipt.owner@ == self.escrow_owner@,
                    receipt.locker@ == self.locker_key@,
                    self.receipts_scan(receipts@, i as nat) == Ok::<int, ProtocolError>(
                        remaining_amount as int,
                    ),
                    self.receipts_scan(receipts@, (i + 1) as nat) is Err ==> self.receipts_scan(
                        receipts@,
                        receipts@.len(),
                    ) == self.receipts_scan(receipts@, (i + 1) as nat),
                    forall|k: int| 0 <= k < j ==> receipts@[k].receipt_id != receipt.receipt_id,
                decreases i - j,
            {
                if receipts[j].receipt_id == receipt.receipt_id {
                    proof {
                        assert(receipts@[j as int].receipt_id == receipts@[i as int].receipt_id);
                    }
                    return Err(ProtocolError::InvariantViolated);
                }
                j = j + 1;
            }
            let owed = match receipt.calculate_reward_amount_at_time(
                &self.locker.params,
                receipt.vest_ends_at,
            ) {
                Some(v) => v,
                None => return Err(ProtocolError::MathOverflow),
            };
            remaining_amount = match remaining_amount.checked_add(owed) {
                Some(v) => v,
                None => return Err(ProtocolError::MathOverflow),
            };
            i = i + 1;
        }
        match self.escrow.amount.checked_sub(remaining_amount) {
            Some(v) => Ok(v),
            None => Err(ProtocolError::MathOverflow),
        }
    }

    /// Releases at `now` what the receipts do not owe; see `Escrow::release_spec`.
    pub fn process(&mut self, receipts: &Vec<NftReceipt>, now: i64) -> (r: Result<
        ExitOutcome,
        ProtocolError,
    >)
        ensures
            match old(self).check_receipts_spec(receipts@) {
                Err(e) => r is Err && r->Err_0 == e && *final(self) == *old(self),
                Ok(unlock) => match old(self).escrow.release_spec(old(self).locker, unlock) {
                    Err(e) => r is Err && r->Err_0 == e && *final(self) == *old(self),
                    Ok((e, l)) => {
                        &&& r is Ok
                        &&& *final(self) == (Exit { escrow: e, locker: l, ..*old(self) })
                        &&& r->Ok_0.transfer == (TokenInstruction::Transfer {
                            from: old(self).locked_tokens.key,
                            to: old(self).destination_tokens.key,
                            authority: old(self).escrow_key,
                            amount: unlock,
                        })
                        &&& r->Ok_0.event == (ExitEscrowEvent {
                            escrow_owner: old(self).escrow.owner,
                            locker: old(self).locker_key,
                            timestamp: now,
                            locked_supply: l.locked_supply,
                            released_amount: e.amount,
                        })
                    },
                },
            },
    {
        let unlock_amount = self.check_receipts(receipts)?;
        self.escrow.release(&mut self.locker, unlock_amount)?;
        let transfer = TokenInstruction::Transfer {
            from: self.locked_tokens.key,
            to: self.destination_tokens.key,
            authority: self.escrow_key,
            amount: unlock_amount,
        };
        let event = ExitEscrowEvent {
            escrow_owner: self.escrow.owner,
            locker: self.locker_key,
            timestamp: now,
            locked_supply: self.locker.locked_supply,
            released_amount: self.escrow.amount,
        };
        Ok(ExitOutcome { transfer, event })
    }
}

/// Claims the vested reward of an NFT receipt.
pub struct Claim {
    pub locker_key: Pubkey,
    pub locker: Locker,
    pub escrow_key: Pubkey,
    pub escrow: Escrow,
    pub escrow_owner: Pubkey,
    pub locked_tokens: TokenAccount,
    pub destination_tokens: TokenAccount,
    pub nft_receipt: NftReceipt,
}

impl Claim {
    pub open spec fn validate_spec(&self) -> Result<(), ProtocolError> {
        if self.locker_key@ != self.escrow.locker@ {
            Err(ProtocolError::InvalidLocker)
        } else if self.locker_key@ != self.nft_receipt.locker@ {
            Err(ProtocolError::InvalidLocker)
        } else if self.escrow.owner@ != self.escrow_owner@ {
            Err(ProtocolError::InvalidAccountOwner)
        } else if self.nft_receipt.owner@ != self.escrow_owner@ {
            Err(ProtocolError::InvalidAccountOwner)
        } else if self.escrow.tokens@ != self.locked_tokens.key@ {
            Err(ProtocolError::InvalidToken)
        } else if self.locked_tokens.key@ == self.destination_tokens.key@ {
            Err(ProtocolError::InvalidToken)
        } else {
            check(
                self.escrow.receipt_count > self.nft_receipt.receipt_id,
                ProtocolError::InvariantViolated,
            )
        }
    }

    pub fn validate(&self) -> (r: Result<(), ProtocolError>)
        ensures
            r == self.validate_spec(),
    {
        if !keys_eq(&self.locker_key, &self.escrow.locker) {
            return Err(ProtocolError::InvalidLocker);
        }
        if !keys_eq(&self.locker_key, &self.nft_receipt.locker) {
            return Err(ProtocolError::InvalidLocker);
        }
        if !keys_eq(&self.escrow.owner, &self.escrow_owner) {
            return Err(ProtocolError::InvalidAccountOwner);
        }
        if !keys_eq(&self.nft_receipt.owner, &self.escrow_owner) {
            return Err(ProtocolError::InvalidAccountOwner);
        }
        if !keys_eq(&self.escrow.tokens, &self.locked_tokens.key) {
            return Err(ProtocolError::InvalidToken);
        }
        if keys_eq(&self.locked_tokens.key, &self.destination_tokens.key) {
            return Err(ProtocolError::InvalidToken);
        }
        if self.escrow.receipt_count <= self.nft_receipt.receipt_id {
            return Err(ProtocolError::InvariantViolated);
        }
        Ok(())
    }

    /// Pays out at `now` the reward vested and not yet paid; see `NftReceipt::claim_spec`.
    pub fn process(&mut self, now: i64) -> (r: Result<TokenInstruction, ProtocolError>)
        ensures
            match old(self).nft_receipt.claim_spec(old(self).locker, old(self).escrow, now) {
                Ok((due, n, l, e)) => r == Ok::<TokenInstruction, ProtocolError>(
                    TokenInstruction::Transfer {
                        from: old(self).locked_tokens.key,
                        to: old(self).destination_tokens.key,
                        authority: old(self).escrow_key,
                        amount: due,
                    },
                ) && *final(self) == (Claim { nft_receipt: n, locker: l, escrow: e, ..*old(self) }),
                Err(err) => r == Err::<TokenInstruction, ProtocolError>(err) && *final(self) == *old(
                    self,
                ),
            },
    {
        let claim_amount = self.nft_receipt.claim(&mut self.locker, &mut self.escrow, now)?;
        Ok(
            TokenInstruction::Transfer {
                from: self.locked_tokens.key,
                to: self.destination_tokens.key,
                authority: self.escrow_key,
                amount: claim_amount,
            },
        )
    }
}

/// Closes a receipt that has vested and been paid in full.
pub struct CloseReceipt {
    pub locker_key: Pubkey,
    pub locker: Locker,
    pub escrow: Escrow,
    pub nft_receipt: NftReceipt,
    pub escrow_owner: Pubkey,
}

impl CloseReceipt {
    pub open spec fn validate_spec(&self, now: i64) -> Result<(), ProtocolError> {
        if self.locker_key@ != self.escrow.locker@ {
            Err(ProtocolError::InvalidLocker)
        } else if self.locker_key@ != self.nft_receipt.locker@ {
            Err(ProtocolError::InvalidLocker)
        } else if self.escrow_owner@ != self.escrow.owner@ {
            Err(ProtocolError::InvalidAccountOwner)
        } else if self.escrow_owner@ != self.nft_receipt.owner@ {
            Err(ProtocolError::InvalidAccountOwner)
        } else if self.nft_receipt.vest_ends_at >= now {
            Err(ProtocolError::ReceiptNotEnded)
        } else {
            check(
                self.locker.params.max_reward_amount_spec() == Some(self.nft_receipt.claimed_amount),
                ProtocolError::CloseNonZeroReceipt,
            )
        }
    }

    /// The receipt must have ended before `now` and paid its whole reward.
    pub fn validate(&self, now: i64) -> (r: Result<(), ProtocolError>)
        ensures
            r == self.validate_spec(now),
    {
        if !keys_eq(&self.locker_key, &self.escrow.locker) {
            return Err(ProtocolError::InvalidLocker);
        }
        if !keys_eq(&self.locker_key, &self.nft_receipt.locker) {
            return Err(ProtocolError::InvalidLocker);
        }
        if !keys_eq(&self.escrow_owner, &self.escrow.owner) {
            return Err(ProtocolError::InvalidAccountOwner);
        }
        if !keys_eq(&self.escrow_owner, &self.nft_receipt.owner) {
            return Err(ProtocolError::InvalidAccountOwner);
        }
        if self.nft_receipt.vest_ends_at >= now {
            return Err(ProtocolError::ReceiptNotEnded);
        }
        match self.locker.params.calculate_max_reward_amount() {
            Some(m) => {
                if m != self.nft_receipt.claimed_amount {
                    return Err(ProtocolError::CloseNonZeroReceipt);
                }
            },
            None => return Err(ProtocolError::CloseNonZeroReceipt),
        }
        Ok(())
    }

    /// Unlinks the receipt from its escrow.
    pub fn process(&mut self) -> (r: Result<(), ProtocolError>)
        ensures
            old(self).escrow.receipt_count == 0 ==> r == Err::<(), ProtocolError>(
                ProtocolError::ReceiptCountError,
            ) && *final(self) == *old(self),
            old(self).escrow.receipt_count > 0 ==> r is Ok && *final(self) == (CloseReceipt {
                escrow: Escrow {
                    receipt_count: (old(self).escrow.receipt_count - 1) as u64,
                    ..old(self).escrow
                },
                ..*old(self)
            }),
    {
        if self.escrow.receipt_count == 0 {
            return Err(ProtocolError::ReceiptCountError);
        }
        self.escrow.receipt_count = self.escrow.receipt_count - 1;
        Ok(())
    }
}

/// Closes an ended escrow with no tokens and no open receipt, and its token account.
pub struct CloseEscrow {
    pub locker_key: Pubkey,
    pub escrow_key: Pubkey,
    pub escrow: Escrow,
    pub escrow_owner: Pubkey,
    pub locked_tokens: TokenAccount,
    pub funds_receiver: Pubkey,
}

impl CloseEscrow {
    pub open spec fn validate_spec(&self, now: i64) -> Result<(), ProtocolError> {
        if self.locker_key@ != self.escrow.locker@ {
            Err(ProtocolError::InvalidLocker)
        } else if self.escrow_owner@ != self.escrow.owner@ {
            Err(ProtocolError::InvalidAccountOwner)
        } else if self.locked_tokens.key@ != self.escrow.tokens@ {
            Err(ProtocolError::InvalidToken)
        } else if self.escrow.escrow_ends_at >= now {
            Err(ProtocolError::EscrowNotEnded)
        } else {
            check(self.escrow.amount == 0 && self.escrow.receipt_count == 0, ProtocolError::EscrowInUse)
        }
    }

    pub fn validate(&self, now: i64) -> (r: Result<(), ProtocolError>)
        ensures
            r == self.validate_spec(now),
    {
        if !keys_eq(&self.locker_key, &self.escrow.locker) {
            return Err(ProtocolError::InvalidLocker);
        }
        if !keys_eq(&self.escrow_owner, &self.escrow.owner) {
            return Err(ProtocolError::InvalidAccountOwner);
        }
        if !keys_eq(&self.locked_tokens.key, &self.escrow.tokens) {
            return Err(ProtocolError::InvalidToken);
        }
        if self.escrow.escrow_ends_at >= now {
            return Err(ProtocolError::EscrowNotEnded);
        }
        if self.escrow.amount != 0 || self.escrow.receipt_count != 0 {
            return Err(ProtocolError::EscrowInUse);
        }
        Ok(())
    }

    /// The closing of the escrow's token account.
    pub fn process(&self) -> (r: TokenInstruction)
        ensures
            r == (TokenInstruction::CloseAccount {
                account: self.locked_tokens.key,
                destination: self.funds_receiver,
                authority: self.escrow_key,
            }),
    {
        TokenInstruction::CloseAccount {
            account: self.locked_tokens.key,
            destination: self.funds_receiver,
            authority: self.escrow_key,
        }
    }
}

/// Moves part of an unexpired escrow into an empty escrow of the same locker.
pub struct TransferEscrow {
    pub locker_key: Pubkey,
    pub source_escrow_key: Pubkey,
    pub source_escrow: Escrow,
    pub source_escrow_owner: Pubkey,
    pub destination_escrow_key: Pubkey,
    pub destination_escrow: Escrow,
}

impl TransferEscrow {
    pub open spec fn validate_spec(&self, now: i64) -> Result<(), ProtocolError> {
        if self.source_escrow.locker@ != self.locker_key@ || self.destination_escrow.locker@
            != self.locker_key@ || self.source_escrow.owner@ != self.source_escrow_owner@ {
            Err(ProtocolError::KeyMismatch)
        } else if self.source_escrow.escrow_ends_at <= now {
            Err(ProtocolError::EscrowExpired)
        } else {
            check(self.destination_escrow.amount == 0, ProtocolError::EscrowInUse)
        }
    }

    /// Both escrows belong to the locker, the source's owner signs, the source's lock has
    /// not ended at `now`, and the destination holds nothing.
    pub fn validate(&self, now: i64) -> (r: Result<(), ProtocolError>)
        ensures
            r == self.validate_spec(now),
    {
        if !keys_eq(&self.source_escrow.locker, &self.locker_key) {
            return Err(ProtocolError::KeyMismatch);
        }
        if !keys_eq(&self.destination_escrow.locker, &self.locker_key) {
            return Err(ProtocolError::KeyMismatch);
        }
        if !keys_eq(&self.source_escrow.owner, &self.source_escrow_owner) {
            return Err(ProtocolError::KeyMismatch);
        }
        if self.source_escrow.escrow_ends_at <= now {
            return Err(ProtocolError::EscrowExpired);
        }
        if self.destination_escrow.amount != 0 {
            return Err(ProtocolError::EscrowInUse);
        }
        Ok(())
    }

    /// Moves `amount`, which must leave something in the source, at `now`; see
    /// `Escrow::transfer_spec`.
    pub fn process(&mut self, amount: u64, now: i64) -> (r: Result<TransferEvent, ProtocolError>)
        ensures
            old(self).source_escrow.amount <= amount ==> r is Err && r->Err_0
                == ProtocolError::EscrowNoBalance && *final(self) == *old(self),
            old(self).source_escrow.amount > amount ==> match old(
                self,
            ).destination_escrow.transfer_spec(old(self).source_escrow, amount) {
                Ok((d, f)) => {
                    &&& r is Ok
                    &&& *final(self) == (TransferEscrow {
                        source_escrow: f,
                        destination_escrow: d,
                        ..*old(self)
                    })
                    &&& r->Ok_0 == (TransferEvent {
                        locker: old(self).locker_key,
                        source_escrow: old(self).source_escrow_key,
                        source_escrow_owner: f.owner,
                        source_balance: f.amount,
                        destination_escrow: old(self).destination_escrow_key,
                        destination_escrow_owner: d.owner,
                        destination_balance: d.amount,
                        amount,
                        timestamp: now,
                    })
                },
                Err(err) => r is Err && r->Err_0 == err && *final(self) == *old(self),
            },
    {
        if self.source_escrow.amount <= amount {
            return Err(ProtocolError::EscrowNoBalance);
        }
        self.destination_escrow.update_transfer_event(&mut self.source_escrow, amount)?;
        Ok(
            TransferEvent {
                locker: self.locker_key,
                source_escrow: self.source_escrow_key,
                source_escrow_owner: self.source_escrow.owner,
                source_balance: self.source_escrow.amount,
                destination_escrow: self.destination_escrow_key,
                destination_escrow_owner: self.destination_escrow.owner,
                destination_balance: self.destination_escrow.amount,
                amount,
                timestamp: now,
            },
        )
    }
}

} // verus!
