//! A locker together with every escrow of it: its supply always equals the sum of the
//! amounts its escrows hold.
use vstd::prelude::*;
use vstd::pervasive::VecAdditionalExecFns;
use crate::pubkey::Pubkey;
use crate::ve_honey::error::ProtocolError;
use crate::ve_honey::escrow::Escrow;
use crate::ve_honey::locker::Locker;
use crate::ve_honey::nft_receipt::NftReceipt;

verus! {

/// The sum of the amounts held by `escrows`.
pub open spec fn total_amount(escrows: Seq<Escrow>) -> int
    decreases escrows.len(),
{
    if escrows.len() == 0 {
        0
    } else {
        total_amount(escrows.drop_last()) + escrows.last().amount
    }
}

proof fn lemma_total_update(s: Seq<Escrow>, i: int, e: Escrow)
    requires
        0 <= i < s.len(),
    ensures
        total_amount(s.update(i, e)) == total_amount(s) - s[i].amount + e.amount,
    decreases s.len(),
{
    let t = s.update(i, e);
    if i < s.len() - 1 {
        lemma_total_update(s.drop_last(), i, e);
        assert(t.drop_last() =~= s.drop_last().update(i, e));
    } else {
        assert(t.drop_last() =~= s.drop_last());
    }
}

proof fn lemma_total_push(s: Seq<Escrow>, e: Escrow)
    ensures
        total_amount(s.push(e)) == total_amount(s) + e.amount,
{
    assert(s.push(e).drop_last() =~= s);
}

/// A locker and all of its escrows.
pub struct LockerBook {
    pub locker_key: Pubkey,
    pub locker: Locker,
    pub escrows: Vec<Escrow>,
}

impl LockerBook {
    /// Supply conservation: the locker's supply is what its escrows hold.
    pub open spec fn wf(&self) -> bool {
        self.locker.locked_supply == total_amount(self.escrows@)
    }

    /// A locker with no escrows, and so no supply.
    pub fn new(locker_key: Pubkey, locker: Locker) -> (r: LockerBook)
        ensures
            r.wf(),
            r.locker_key == locker_key,
            r.locker == (Locker { locked_supply: 0, ..locker }),
            r.escrows@.len() == 0,
    {
        let mut locker = locker;
        locker.locked_supply = 0;
        LockerBook { locker_key, locker, escrows: Vec::new() }
    }

    /// Opens an empty escrow of `owner`, whose tokens are held in `tokens`.
    pub fn open_escrow(&mut self, owner: Pubkey, tokens: Pubkey, bump: u8) -> (r: usize)
        requires
            old(self).wf(),
            old(self).escrows@.len() < usize::MAX,
        ensures
            final(self).wf(),
            r == old(self).escrows@.len(),
            final(self).escrows@ == old(self).escrows@.push(
                Escrow {
                    locker: old(self).locker_key,
                    owner,
                    bump,
                    tokens,
                    amount: 0,
                    escrow_started_at: 0,
                    escrow_ends_at: 0,
                    receipt_count: 0,
                    vote_delegate: owner,
                },
            ),
            final(self).locker == old(self).locker,
            final(self).locker_key == old(self).locker_key,
    {
        let e = Escrow {
            locker: self.locker_key,
            owner,
            bump,
            tokens,
            amount: 0,
            escrow_started_at: 0,
            escrow_ends_at: 0,
            receipt_count: 0,
            vote_delegate: owner,
        };
        proof {
            lemma_total_push(self.escrows@, e);
        }
        let r = self.escrows.len();
        self.escrows.push(e);
        r
    }

    /// Locks `amount` into escrow `i`; see `Escrow::lock_spec`.
    pub fn lock(&mut self, i: usize, amount: u64, duration: i64, now: i64) -> (r: Result<
        (),
        ProtocolError,
    >)
        requires
            old(self).wf(),
            i < old(self).escrows@.len(),
        ensures
            final(self).wf(),
            final(self).locker_key == old(self).locker_key,
            match old(self).escrows@[i as int].lock_spec(old(self).locker, amount, duration, now) {
                Ok((e, l)) => r is Ok && final(self).locker == l && final(self).escrows@ == old(
                    self,
                ).escrows@.update(i as int, e),
                Err(err) => r == Err::<(), ProtocolError>(err) && *final(self) == *old(self),
            },
    {
        let mut escrow = self.escrows[i];
        let result = escrow.lock(&mut self.locker, amount, duration, now);
        if result.is_ok() {
            proof {
                lemma_total_update(self.escrows@, i as int, escrow);
            }
            self.escrows.set(i, escrow);
        }
        result
    }

    /// Locks an NFT into escrow `i`; see `Escrow::lock_nft_spec`.
    pub fn lock_nft(&mut self, i: usize, duration: i64, now: i64) -> (r: Result<
        NftReceipt,
        ProtocolError,
    >)
        requires
            old(self).wf(),
            i < old(self).escrows@.len(),
        ensures
            final(self).wf(),
            final(self).locker_key == old(self).locker_key,
            match old(self).escrows@[i as int].lock_nft_spec(old(self).locker, duration, now) {
                Ok((e, l)) => r is Ok && r->Ok_0 == old(self).escrows@[i as int].new_receipt_spec(
                    old(self).locker_key,
                    old(self).locker.params,
                    now,
                ) && final(self).locker == l && final(self).escrows@ == old(self).escrows@.update(
                    i as int,
                    e,
                ),
                Err(err) => r is Err && r->Err_0 == err && *final(self) == *old(self),
            },
    {
        let mut escrow = self.escrows[i];
        let result = escrow.lock_nft(&mut self.locker, self.locker_key, duration, now);
        match result {
            Ok((receipt, _reward)) => {
                proof {
                    lemma_total_update(self.escrows@, i as int, escrow);
                }
                self.escrows.set(i, escrow);
                Ok(receipt)
            },
            Err(e) => Err(e),
        }
    }

    /// Takes `unlock_amount` out of escrow `i`, as an exit does once the escrow's
    /// receipts have been accounted for; see `Escrow::release_spec`.
    pub fn exit(&mut self, i: usize, unlock_amount: u64) -> (r: Result<(), ProtocolError>)
        requires
            old(self).wf(),
            i < old(self).escrows@.len(),
        ensures
            final(self).wf(),
            final(self).locker_key == old(self).locker_key,
            match old(self).escrows@[i as int].release_spec(old(self).locker, unlock_amount) {
                Ok((e, l)) => r is Ok && final(self).locker == l && final(self).escrows@ == old(
                    self,
                ).escrows@.update(i as int, e),
                Err(err) => r == Err::<(), ProtocolError>(err) && *final(self) == *old(self),
            },
    {
        let mut escrow = self.escrows[i];
        let result = escrow.release(&mut self.locker, unlock_amount);
        if result.is_ok() {
            proof {
                lemma_total_update(self.escrows@, i as int, escrow);
            }
            self.escrows.set(i, escrow);
        }
        result
    }

    /// Moves `amount` from escrow `from` into escrow `to`; see `Escrow::transfer_spec`.
    pub fn transfer(&mut self, from: usize, to: usize, amount: u64) -> (r: Result<(), ProtocolError>)
        requires
            old(self).wf(),
            from < old(self).escrows@.len(),
            to < old(self).escrows@.len(),
            from != to,
        ensures
            final(self).wf(),
            final(self).locker_key == old(self).locker_key,
            final(self).locker == old(self).locker,
            match old(self).escrows@[to as int].transfer_spec(old(self).escrows@[from as int], amount) {
                Ok((d, f)) => r is Ok && final(self).escrows@ == old(self).escrows@.update(
                    to as int,
                    d,
                ).update(from as int, f),
                Err(err) => r == Err::<(), ProtocolError>(err) && *final(self) == *old(self),
            },
    {
        let mut source = self.escrows[from];
        let mut destination = self.escrows[to];
        let result = destination.update_transfer_event(&mut source, amount);
        if result.is_ok() {
            proof {
                let s0 = self.escrows@;
                lemma_total_update(s0, to as int, destination);
                lemma_total_update(s0.update(to as int, destination), from as int, source);
            }
            self.escrows.set(to, destination);
            self.escrows.set(from, source);
        }
        result
    }

    /// Pays out at `now` the vested reward of `receipt`, from escrow `i`; see
    /// `NftReceipt::claim_spec`.
    pub fn claim(&mut self, i: usize, receipt: &mut NftReceipt, now: i64) -> (r: Result<
        u64,
        ProtocolError,
    >)
        requires
            old(self).wf(),
            i < old(self).escrows@.len(),
        ensures
            final(self).wf(),
            final(self).locker_key == old(self).locker_key,
            match old(receipt).claim_spec(old(self).locker, old(self).escrows@[i as int], now) {
                Ok((due, n, l, e)) => r == Ok::<u64, ProtocolError>(due) && *final(receipt) == n
                    && final(self).locker == l && final(self).escrows@ == old(self).escrows@.update(
                    i as int,
                    e,
                ),
                Err(err) => r == Err::<u64, ProtocolError>(err) && *final(receipt) == *old(receipt)
                    && *final(self) == *old(self),
            },
    {
        let mut escrow = self.escrows[i];
        let result = receipt.claim(&mut self.locker, &mut escrow, now);
        if result.is_ok() {
            proof {
                lemma_total_update(self.escrows@, i as int, escrow);
            }
            self.escrows.set(i, escrow);
        }
        result
    }
}

} // verus!
