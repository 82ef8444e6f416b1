//! The instructions that lock tokens or NFTs into an escrow.
use vstd::prelude::*;
use crate::pubkey::{is_zero_key, keys_eq, Pubkey};
use crate::token::{TokenAccount, TokenInstruction};
use crate::ve_honey::admission::{Proof, ProofType, WhitelistEntry, CREATOR, MINT};
use crate::ve_honey::error::ProtocolError;
use crate::ve_honey::escrow::Escrow;
use crate::ve_honey::events::LockEvent;
use crate::ve_honey::locker::Locker;
use crate::ve_honey::nft_receipt::NftReceipt;

verus! {

pub open spec fn check(cond: bool, e: ProtocolError) -> Result<(), ProtocolError> {
    if cond {
        Ok(())
    } else {
        Err(e)
    }
}

/// What the caller supplies for the whitelist check: the program that issued the
/// instruction, and the whitelist entry of that program, if one exists.
#[derive(Clone, Copy, Debug)]
pub struct WhitelistProof {
    pub program_id: Pubkey,
    pub entry: Option<WhitelistEntry>,
}

/// What a lock hands back to the caller.
pub struct LockOutcome {
    /// Transfer of the locked tokens into the escrow; none for a pure refresh.
    pub transfer: Option<TokenInstruction>,
    pub event: LockEvent,
}

/// Locks tokens into an escrow, or refreshes its lock.
pub struct Lock {
    pub locker_key: Pubkey,
    pub locker: Locker,
    pub escrow: Escrow,
    /// Token account held by the escrow.
    pub locked_tokens: TokenAccount,
    pub escrow_owner: Pubkey,
    /// Where the tokens come from.
    pub source_tokens: TokenAccount,
    pub source_tokens_authority: Pubkey,
}

impl Lock {
    pub open spec fn validate_spec(&self) -> Result<(), ProtocolError> {
        if self.locker_key@ != self.escrow.locker@ {
            Err(ProtocolError::InvalidLocker)
        } else if self.escrow.tokens@ != self.locked_tokens.key@ {
            Err(ProtocolError::InvalidToken)
        } else if self.source_tokens.key@ == self.locked_tokens.key@ {
            Err(ProtocolError::InvalidToken)
        } else if self.escrow.owner@ != self.escrow_owner@ {
            Err(ProtocolError::InvalidAccountOwner)
        } else if self.source_tokens.owner@ != self.source_tokens_authority@ {
            Err(ProtocolError::InvalidTokenOwner)
        } else {
            check(self.source_tokens.mint@ == self.locker.token_mint@, ProtocolError::InvalidLockerMint)
        }
    }

    /// The accounts must belong together.
    pub fn validate(&self) -> (r: Result<(), ProtocolError>)
        ensures
            r == self.validate_spec(),
    {
        if !keys_eq(&self.locker_key, &self.escrow.locker) {
            return Err(ProtocolError::InvalidLocker);
        }
        if !keys_eq(&self.escrow.tokens, &self.locked_tokens.key) {
            return Err(ProtocolError::InvalidToken);
        }
        if keys_eq(&self.source_tokens.key, &self.locked_tokens.key) {
            return Err(ProtocolError::InvalidToken);
        }
        if !keys_eq(&self.escrow.owner, &self.escrow_owner) {
            return Err(ProtocolError::InvalidAccountOwner);
        }
        if !keys_eq(&self.source_tokens.owner, &self.source_tokens_authority) {
            return Err(ProtocolError::InvalidTokenOwner);
        }
        if !keys_eq(&self.source_tokens.mint, &self.locker.token_mint) {
            return Err(ProtocolError::InvalidLockerMint);
        }
        Ok(())
    }

    pub open spec fn check_whitelisted_spec(&self, this_program: Pubkey, whitelist: Option<
        WhitelistProof,
    >) -> Result<(), ProtocolError> {
        match whitelist {
            None => Err(ProtocolError::MustProvideWhitelist),
            Some(w) => if w.program_id@ == this_program@ {
                Ok(())
            } else {
                match w.entry {
                    None => Err(ProtocolError::ProgramNotWhitelisted),
                    Some(e) => if e.locker@ != self.locker_key@ || e.program_id@ != w.program_id@ {
                        Err(ProtocolError::KeyMismatch)
                    } else if !is_zero_key(e.owner) && e.owner@ != self.escrow_owner@ {
                        Err(ProtocolError::EscrowOwnerNotWhitelisted)
                    } else {
                        Ok(())
                    },
                }
            },
        }
    }

    /// Where the locker restricts locking, the lock must come from this program itself or
    /// from a program whitelisted for this locker and this owner (or for every owner).
    pub fn check_whitelisted(&self, this_program: Pubkey, whitelist: Option<WhitelistProof>) -> (r:
        Result<(), ProtocolError>)
        ensures
            r == self.check_whitelisted_spec(this_program, whitelist),
    {
        let w = match whitelist {
            None => return Err(ProtocolError::MustProvideWhitelist),
            Some(w) => w,
        };
        if keys_eq(&w.program_id, &this_program) {
            return Ok(());
        }
        let entry = match w.entry {
            None => return Err(ProtocolError::ProgramNotWhitelisted),
            Some(e) => e,
        };
        if !keys_eq(&entry.locker, &self.locker_key) {
            return Err(ProtocolError::KeyMismatch);
        }
        if !keys_eq(&entry.program_id, &w.program_id) {
            return Err(ProtocolError::KeyMismatch);
        }
        let any_owner = Pubkey::default_key();
        if !keys_eq(&entry.owner, &any_owner) && !keys_eq(&entry.owner, &self.escrow_owner) {
            return Err(ProtocolError::EscrowOwnerNotWhitelisted);
        }
        Ok(())
    }

    /// Locks `amount` (0 for a pure refresh) at `now` for `duration`; see
    /// `Escrow::lock_spec` for when it fails.
    pub fn process(&mut self, amount: u64, duration: i64, now: i64) -> (r: Result<
        LockOutcome,
        ProtocolError,
    >)
        ensures
            match old(self).escrow.lock_spec(old(self).locker, amount, duration, now) {
                Ok((e, l)) => {
                    &&& r is Ok
                    &&& *final(self) == (Lock { escrow: e, locker: l, ..*old(self) })
                    &&& r->Ok_0.transfer == if amount > 0 {
                        Some(
                            TokenInstruction::Transfer {
                                from: old(self).source_tokens.key,
                                to: old(self).locked_tokens.key,
                                authority: old(self).source_tokens_authority,
                                amount,
                            },
                        )
                    } else {
                        None
                    }
                    &&& r->Ok_0.event == (LockEvent {
                        locker: old(self).locker_key,
                        escrow_owner: old(self).escrow.owner,
                        token_mint: old(self).locker.token_mint,
                        amount,
                        locker_supply: l.locked_supply,
                        duration,
                        prev_escrow_ends_at: old(self).escrow.escrow_ends_at,
                        next_escrow_ends_at: e.escrow_ends_at,
                        next_escrow_started_at: now,
                    })
                },
                Err(err) => r is Err && r->Err_0 == err && *final(self) == *old(self),
            },
    {
        let prev_escrow_ends_at = self.escrow.escrow_ends_at;
        self.escrow.lock(&mut self.locker, amount, duration, now)?;
        let transfer = if amount > 0 {
            Some(
                TokenInstruction::Transfer {
                    from: self.source_tokens.key,
                    to: self.locked_tokens.key,
                    authority: self.source_tokens_authority,
                    amount,
                },
            )
        } else {
            None
        };
        let event = LockEvent {
            locker: self.locker_key,
            escrow_owner: self.escrow.owner,
            token_mint: self.locker.token_mint,
            amount,
            locker_supply: self.locker.locked_supply,
            duration,
            prev_escrow_ends_at,
            next_escrow_ends_at: self.escrow.escrow_ends_at,
            next_escrow_started_at: now,
        };
        Ok(LockOutcome { transfer, event })
    }
}

/// The `lock` instruction: the accounts must belong together; where the locker restricts
/// locking, the caller must be whitelisted (see `Lock::check_whitelisted`); then the lock
/// is made (see `Lock::process`).
pub fn lock(
    ctx: &mut Lock,
    this_program: Pubkey,
    whitelist: Option<WhitelistProof>,
    amount: u64,
    duration: i64,
    now: i64,
) -> (r: Result<LockOutcome, ProtocolError>)
    ensures
        old(ctx).validate_spec() is Err ==> r is Err && r->Err_0 == old(ctx).validate_spec()->Err_0
            && *final(ctx) == *old(ctx),
        old(ctx).validate_spec() is Ok && old(ctx).locker.params.whitelist_enabled && old(
            ctx,
        ).check_whitelisted_spec(this_program, whitelist) is Err ==> r is Err && r->Err_0 == old(
            ctx,
        ).check_whitelisted_spec(this_program, whitelist)->Err_0 && *final(ctx) == *old(ctx),
        old(ctx).validate_spec() is Ok && (!old(ctx).locker.params.whitelist_enabled || old(
            ctx,
        ).check_whitelisted_spec(this_program, whitelist) is Ok) ==> match old(
            ctx,
        ).escrow.lock_spec(old(ctx).locker, amount, duration, now) {
            Ok((e, l)) => r is Ok && *final(ctx) == (Lock { escrow: e, locker: l, ..*old(ctx) }),
            Err(err) => r is Err && r->Err_0 == err && *final(ctx) == *old(ctx),
        },
{
    ctx.validate()?;
    if ctx.locker.params.whitelist_enabled {
        ctx.check_whitelisted(this_program, whitelist)?;
    }
    ctx.process(amount, duration, now)
}

/// What an NFT lock hands back to the caller.
pub struct LockNftOutcome {
    /// The receipt account to create.
    pub receipt: NftReceipt,
    /// Transfer of the whole reward from the treasury into the escrow; none for a reward of 0.
    pub transfer: Option<TokenInstruction>,
}

/// Locks (burns) an NFT: the whole reward moves into the escrow and vests on a receipt.
pub struct LockNft {
    pub locker_key: Pubkey,
    pub locker: Locker,
    pub escrow: Escrow,
    pub escrow_owner: Pubkey,
    pub locked_tokens: TokenAccount,
    pub locker_treasury: TokenAccount,
}

impl LockNft {
    pub open spec fn validate_spec(&self) -> Result<(), ProtocolError> {
        if self.locker_key@ != self.escrow.locker@ {
            Err(ProtocolError::InvalidLocker)
        } else if self.locked_tokens.key@ != self.escrow.tokens@ {
            Err(ProtocolError::InvalidToken)
        } else {
            check(self.escrow_owner@ == self.escrow.owner@, ProtocolError::InvalidAccountOwner)
        }
    }

    pub fn validate(&self) -> (r: Result<(), ProtocolError>)
        ensures
            r == self.validate_spec(),
    {
        if !keys_eq(&self.locker_key, &self.escrow.locker) {
            return Err(ProtocolError::InvalidLocker);
        }
        if !keys_eq(&self.locked_tokens.key, &self.escrow.tokens) {
            return Err(ProtocolError::InvalidToken);
        }
        if !keys_eq(&self.escrow_owner, &self.escrow.owner) {
            return Err(ProtocolError::InvalidAccountOwner);
        }
        Ok(())
    }

    /// Locks an NFT at `now` for `duration`; see `Escrow::lock_nft_spec` for when it fails.
    pub fn process(&mut self, duration: i64, now: i64) -> (r: Result<LockNftOutcome, ProtocolError>)
        ensures
            match old(self).escrow.lock_nft_spec(old(self).locker, duration, now) {
                Ok((e, l)) => {
                    let reward = old(self).locker.params.max_reward_amount_spec()->Some_0;
                    &&& r is Ok
                    &&& *final(self) == (LockNft { escrow: e, locker: l, ..*old(self) })
                    &&& r->Ok_0.receipt == old(self).escrow.new_receipt_spec(
                        old(self).locker_key,
                        old(self).locker.params,
                        now,
                    )
                    &&& final(self).escrow.escrow_ends_at >= r->Ok_0.receipt.vest_ends_at
                    &&& r->Ok_0.transfer == if reward > 0 {
                        Some(
                            TokenInstruction::Transfer {
                                from: old(self).locker_treasury.key,
                                to: old(self).locked_tokens.key,
                                authority: old(self).locker_key,
                                amount: reward,
                            },
                        )
                    } else {
                        None
                    }
                },
                Err(err) => r is Err && r->Err_0 == err && *final(self) == *old(self),
            },
    {
        let (receipt, reward) = self.escrow.lock_nft(&mut self.locker, self.locker_key, duration, now)?;
        let transfer = if reward > 0 {
            Some(
                TokenInstruction::Transfer {
                    from: self.locker_treasury.key,
                    to: self.locked_tokens.key,
                    authority: self.locker_key,
                    amount: reward,
                },
            )
        } else {
            None
        };
        Ok(LockNftOutcome { receipt, transfer })
    }
}

pub open spec fn valid_proof_spec(
    proof_key: Pubkey,
    expected_key: Pubkey,
    proof: Proof,
    expected_proof_type: ProofType,
) -> Result<(), ProtocolError> {
    if proof_key@ != expected_key@ {
        Err(ProtocolError::InvalidProof)
    } else {
        proof.contains_type_spec(expected_proof_type)
    }
}

/// The proof account at `proof_key` must be the one whose address derives from the locker
/// and the attested address (`expected_key`), and must carry `expected_proof_type`.
pub fn assert_valid_proof(
    proof_key: Pubkey,
    expected_key: Pubkey,
    proof: &Proof,
    expected_proof_type: ProofType,
) -> (r: Result<(), ProtocolError>)
    ensures
        r == valid_proof_spec(proof_key, expected_key, *proof, expected_proof_type),
{
    if !keys_eq(&expected_key, &proof_key) {
        return Err(ProtocolError::InvalidProof);
    }
    proof.contains_type(expected_proof_type)
}

/// A creator listed in an NFT's metadata.
#[derive(Clone, Copy, Debug)]
pub struct Creator {
    /// Address of the proof that would attest this creator.
    pub proof_key: Pubkey,
    /// Whether the creator is verified.
    pub verified: bool,
}

/// An NFT may be locked when the proof attests its mint, or one of its verified creators.
pub open spec fn nft_admitted(proof_key: Pubkey, proof: Proof, mint_proof_key: Pubkey, creators: Seq<
    Creator,
>) -> bool {
    valid_proof_spec(proof_key, mint_proof_key, proof, ProofType { bits: MINT }) is Ok || exists|
        i: int,
    |
        0 <= i < creators.len() && creators[i].verified && (#[trigger] valid_proof_spec(
            proof_key,
            creators[i].proof_key,
            proof,
            ProofType { bits: CREATOR },
        )) is Ok
}

/// Checks that the proof at `proof_key` admits the NFT: `mint_proof_key` is the proof
/// address derived from the NFT's mint, and `creators` come from its metadata.
pub fn check_accounts(proof_key: Pubkey, proof: &Proof, mint_proof_key: Pubkey, creators: &Vec<
    Creator,
>) -> (r: Result<(), ProtocolError>)
    ensures
        nft_admitted(proof_key, *proof, mint_proof_key, creators@) ==> r is Ok,
        !nft_admitted(proof_key, *proof, mint_proof_key, creators@) ==> r == Err::<
            (),
            ProtocolError,
        >(ProtocolError::InvalidProof),
{
    if assert_valid_proof(proof_key, mint_proof_key, proof, ProofType::mint()).is_ok() {
        return Ok(());
    }
    let mut i: usize = 0;
    while i < creators.len()
        invariant
            0 <= i <= creators@.len(),
            forall|j: int|
                0 <= j < i ==> !(creators@[j].verified && (#[trigger] valid_proof_spec(
                    proof_key,
                    creators@[j].proof_key,
                    *proof,
                    ProofType { bits: CREATOR },
                )) is Ok),
            valid_proof_spec(proof_key, mint_proof_key, *proof, ProofType { bits: MINT }) is Err,
        decreases creators@.len() - i,
    {
        let creator = creators[i];
        if creator.verified {
            if assert_valid_proof(proof_key, creator.proof_key, proof, ProofType::creator()).is_ok() {
                return Ok(());
            }
        }
        i = i + 1;
    }
    Err(ProtocolError::InvalidProof)
}

/// Locks an NFT: the proof must admit it (see `check_accounts`), then the lock is made
/// (see `LockNft::process`). Burning the NFT is left to the caller, once this succeeds.
pub fn handler(
    ctx: &mut LockNft,
    proof_key: Pubkey,
    proof: &Proof,
    mint_proof_key: Pubkey,
    creators: &Vec<Creator>,
    duration: i64,
    now: i64,
) -> (r: Result<LockNftOutcome, ProtocolError>)
    ensures
        !nft_admitted(proof_key, *proof, mint_proof_key, creators@) ==> r is Err && r->Err_0
            == ProtocolError::InvalidProof && *final(ctx) == *old(ctx),
        nft_admitted(proof_key, *proof, mint_proof_key, creators@) ==> match old(
            ctx,
        ).escrow.lock_nft_spec(old(ctx).locker, duration, now) {
            Ok((e, l)) => r is Ok && *final(ctx) == (LockNft { escrow: e, locker: l, ..*old(ctx) })
                && r->Ok_0.receipt == old(ctx).escrow.new_receipt_spec(
                old(ctx).locker_key,
                old(ctx).locker.params,
                now,
            ),
            Err(err) => r is Err && r->Err_0 == err && *final(ctx) == *old(ctx),
        },
{
    check_accounts(proof_key, proof, mint_proof_key, creators)?;
    ctx.process(duration, now)
}

} // verus!
