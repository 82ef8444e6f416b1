//! The instructions that set up lockers and escrows, govern their parameters, admission
//! records and delegation, and read voting power for the governor.
use vstd::prelude::*;
use crate::pubkey::{is_zero_key, keys_eq, Pubkey};
use crate::ve_honey::admission::{Proof, WhitelistEntry};
use crate::ve_honey::error::ProtocolError;
use crate::ve_honey::escrow::Escrow;
use crate::ve_honey::events::{
    ApproveLockPrivilegeEvent,
    InitEscrowEvent,
    InitLockerEvent,
    RevokeLockPrivilegeEvent,
    SetVoteDelegateEvent,
};
use crate::ve_honey::lock_ops::check;
use crate::token::TokenInstruction;
use crate::ve_honey::locker::{Locker, LockerParams};

verus! {

/// Creates a locker.
pub struct InitLocker {
    pub locker_key: Pubkey,
    /// The locker account being created.
    pub locker: Locker,
    pub base: Pubkey,
    pub token_mint: Pubkey,
    pub wl_token_mint: Pubkey,
    pub governor: Pubkey,
}

impl InitLocker {
    pub fn process(&mut self, bump: u8, params: LockerParams) -> (r: InitLockerEvent)
        ensures
            final(self).locker == (Locker {
                token_mint: old(self).token_mint,
                wl_token_mint: old(self).wl_token_mint,
                governor: old(self).governor,
                base: old(self).base,
                bump,
                params,
                ..old(self).locker
            }),
            r == (InitLockerEvent {
                locker: old(self).locker_key,
                token_mint: old(self).token_mint,
                governor: old(self).governor,
                params,
            }),
            final(self).locker_key == old(self).locker_key,
    {
        self.locker.token_mint = self.token_mint;
        self.locker.wl_token_mint = self.wl_token_mint;
        self.locker.governor = self.governor;
        self.locker.base = self.base;
        self.locker.bump = bump;
        self.locker.params = params;
        InitLockerEvent {
            locker: self.locker_key,
            token_mint: self.token_mint,
            governor: self.governor,
            params,
        }
    }
}

/// Creates an empty escrow for an owner.
pub struct InitEscrow {
    pub locker_key: Pubkey,
    pub escrow_key: Pubkey,
    /// The escrow account being created.
    pub escrow: Escrow,
    pub escrow_owner: Pubkey,
}

impl InitEscrow {
    /// Sets up the escrow; `tokens` is the escrow's token account for the locker's mint.
    pub fn process(&mut self, bump: u8, tokens: Pubkey, now: i64) -> (r: InitEscrowEvent)
        ensures
            final(self).escrow == (Escrow {
                locker: old(self).locker_key,
                owner: old(self).escrow_owner,
                bump,
                tokens,
                amount: 0,
                escrow_started_at: 0,
                escrow_ends_at: 0,
                receipt_count: 0,
                vote_delegate: old(self).escrow_owner,
            }),
            r == (InitEscrowEvent {
                escrow: old(self).escrow_key,
                escrow_owner: old(self).escrow_owner,
                locker: old(self).locker_key,
                timestamp: now,
            }),
    {
        self.escrow.locker = self.locker_key;
        self.escrow.owner = self.escrow_owner;
        self.escrow.bump = bump;
        self.escrow.tokens = tokens;
        self.escrow.amount = 0;
        self.escrow.escrow_started_at = 0;
        self.escrow.escrow_ends_at = 0;
        self.escrow.receipt_count = 0;
        self.escrow.vote_delegate = self.escrow_owner;
        InitEscrowEvent {
            escrow: self.escrow_key,
            escrow_owner: self.escrow_owner,
            locker: self.locker_key,
            timestamp: now,
        }
    }
}

/// The governor's signature over a governance instruction: its address, the smart wallet
/// it names, and the smart wallet that signed.
#[derive(Clone, Copy, Debug)]
pub struct GovernorAuthority {
    pub governor: Pubkey,
    pub governor_smart_wallet: Pubkey,
    pub smart_wallet: Pubkey,
}

/// Changes a locker's parameters.
pub struct SetLockerParams {
    pub locker: Locker,
    pub authority: GovernorAuthority,
}

impl SetLockerParams {
    pub open spec fn validate_spec(&self) -> Result<(), ProtocolError> {
        if self.authority.governor@ != self.locker.governor@ {
            Err(ProtocolError::GovernorMismatch)
        } else {
            check(
                self.authority.smart_wallet@ == self.authority.governor_smart_wallet@,
                ProtocolError::KeyMismatch,
            )
        }
    }

    /// Only the locker's governor, through its smart wallet, may change the parameters.
    pub fn validate(&self) -> (r: Result<(), ProtocolError>)
        ensures
            r == self.validate_spec(),
    {
        if !keys_eq(&self.authority.governor, &self.locker.governor) {
            return Err(ProtocolError::GovernorMismatch);
        }
        if !keys_eq(&self.authority.smart_wallet, &self.authority.governor_smart_wallet) {
            return Err(ProtocolError::KeyMismatch);
        }
        Ok(())
    }

    pub fn process(&mut self, params: LockerParams)
        ensures
            *final(self) == (SetLockerParams {
                locker: Locker { params, ..old(self).locker },
                ..*old(self)
            }),
    {
        self.locker.params = params;
    }
}

/// Whitelists a program for locking into a locker.
pub struct ApproveProgramLockPrivilege {
    pub locker_key: Pubkey,
    pub locker: Locker,
    /// The whitelist entry being created.
    pub whitelist_entry: WhitelistEntry,
    pub authority: GovernorAuthority,
    pub executable_id: Pubkey,
    /// Whether `executable_id` is a program.
    pub executable: bool,
    /// The owner the program may lock for; the system program's address for any owner.
    pub whitelisted_owner: Pubkey,
}

impl ApproveProgramLockPrivilege {
    pub open spec fn validate_spec(&self) -> Result<(), ProtocolError> {
        if self.locker.governor@ != self.authority.governor@ {
            Err(ProtocolError::KeyMismatch)
        } else if self.authority.governor_smart_wallet@ != self.authority.smart_wallet@ {
            Err(ProtocolError::SmartWalletMismatch)
        } else {
            check(self.executable, ProtocolError::ProgramIdMustBeExecutable)
        }
    }

    pub fn validate(&self) -> (r: Result<(), ProtocolError>)
        ensures
            r == self.validate_spec(),
    {
        if !keys_eq(&self.locker.governor, &self.authority.governor) {
            return Err(ProtocolError::KeyMismatch);
        }
        if !keys_eq(&self.authority.governor_smart_wallet, &self.authority.smart_wallet) {
            return Err(ProtocolError::SmartWalletMismatch);
        }
        if !self.executable {
            return Err(ProtocolError::ProgramIdMustBeExecutable);
        }
        Ok(())
    }

    pub fn process(&mut self, bump: u8, now: i64) -> (r: ApproveLockPrivilegeEvent)
        ensures
            final(self).whitelist_entry == (WhitelistEntry {
                locker: old(self).locker_key,
                bump,
                program_id: old(self).executable_id,
                owner: old(self).whitelisted_owner,
            }),
            r == (ApproveLockPrivilegeEvent {
                locker: old(self).locker_key,
                program_id: old(self).executable_id,
                owner: old(self).whitelisted_owner,
                timestamp: now,
            }),
    {
        self.whitelist_entry.bump = bump;
        self.whitelist_entry.locker = self.locker_key;
        self.whitelist_entry.program_id = self.executable_id;
        self.whitelist_entry.owner = self.whitelisted_owner;
        ApproveLockPrivilegeEvent {
            locker: self.locker_key,
            program_id: self.executable_id,
            owner: self.whitelisted_owner,
            timestamp: now,
        }
    }
}

/// Removes a program from a locker's whitelist.
pub struct RevokeProgramLockPrivilege {
    pub locker_key: Pubkey,
    pub locker: Locker,
    pub whitelist_entry: WhitelistEntry,
    pub authority: GovernorAuthority,
}

impl RevokeProgramLockPrivilege {
    pub open spec fn validate_spec(&self) -> Result<(), ProtocolError> {
        if self.locker.governor@ != self.authority.governor@ {
            Err(ProtocolError::KeyMismatch)
        } else if self.whitelist_entry.locker@ != self.locker_key@ {
            Err(ProtocolError::KeyMismatch)
        } else {
            check(
                self.authority.governor_smart_wallet@ == self.authority.smart_wallet@,
                ProtocolError::SmartWalletMismatch,
            )
        }
    }

    pub fn validate(&self) -> (r: Result<(), ProtocolError>)
        ensures
            r == self.validate_spec(),
    {
        if !keys_eq(&self.locker.governor, &self.authority.governor) {
            return Err(ProtocolError::KeyMismatch);
        }
        if !keys_eq(&self.whitelist_entry.locker, &self.locker_key) {
            return Err(ProtocolError::KeyMismatch);
        }
        if !keys_eq(&self.authority.governor_smart_wallet, &self.authority.smart_wallet) {
            return Err(ProtocolError::SmartWalletMismatch);
        }
        Ok(())
    }

    pub fn process(&self, now: i64) -> (r: RevokeLockPrivilegeEvent)
        ensures
            r == (RevokeLockPrivilegeEvent {
                locker: self.whitelist_entry.locker,
                program_id: self.whitelist_entry.program_id,
                timestamp: now,
            }),
    {
        RevokeLockPrivilegeEvent {
            locker: self.whitelist_entry.locker,
            program_id: self.whitelist_entry.program_id,
            timestamp: now,
        }
    }
}

/// Records, or changes, the proof of an address.
pub struct AddProof {
    pub locker_key: Pubkey,
    pub locker: Locker,
    pub proof: Proof,
    /// The address being attested.
    pub address: Pubkey,
    pub authority: GovernorAuthority,
}

impl AddProof {
    pub open spec fn validate_spec(&self) -> Result<(), ProtocolError> {
        if self.locker.governor@ != self.authority.governor@ {
            Err(ProtocolError::GovernorMismatch)
        } else {
            check(
                self.authority.governor_smart_wallet@ == self.authority.smart_wallet@,
                ProtocolError::SmartWalletMismatch,
            )
        }
    }

    pub fn validate(&self) -> (r: Result<(), ProtocolError>)
        ensures
            r == self.validate_spec(),
    {
        if !keys_eq(&self.locker.governor, &self.authority.governor) {
            return Err(ProtocolError::GovernorMismatch);
        }
        if !keys_eq(&self.authority.governor_smart_wallet, &self.authority.smart_wallet) {
            return Err(ProtocolError::SmartWalletMismatch);
        }
        Ok(())
    }

    /// Sets the proof's flags to `proof_type`, which may hold no unknown flag.
    pub fn process(&mut self, proof_type: u8) -> (r: Result<(), ProtocolError>)
        ensures
            proof_type > 3 ==> r == Err::<(), ProtocolError>(ProtocolError::InvariantViolated)
                && *final(self) == *old(self),
            proof_type <= 3 ==> r is Ok && *final(self) == (AddProof {
                proof: Proof { locker: old(self).locker_key, proof_type, proof_address: old(self).address },
                ..*old(self)
            }),
    {
        let new_proof_type = Proof::read_type(proof_type)?;
        self.proof.reset_type(new_proof_type);
        self.proof.proof_address = self.address;
        self.proof.locker = self.locker_key;
        Ok(())
    }
}

/// Deletes the proof of an address.
pub struct RemoveProof {
    pub locker_key: Pubkey,
    pub locker: Locker,
    pub proof: Proof,
    pub authority: GovernorAuthority,
}

impl RemoveProof {
    pub open spec fn validate_spec(&self) -> Result<(), ProtocolError> {
        if self.locker_key@ != self.proof.locker@ {
            Err(ProtocolError::InvalidLocker)
        } else if self.locker.governor@ != self.authority.governor@ {
            Err(ProtocolError::GovernorMismatch)
        } else {
            check(
                self.authority.governor_smart_wallet@ == self.authority.smart_wallet@,
                ProtocolError::SmartWalletMismatch,
            )
        }
    }

    pub fn validate(&self) -> (r: Result<(), ProtocolError>)
        ensures
            r == self.validate_spec(),
    {
        if !keys_eq(&self.locker_key, &self.proof.locker) {
            return Err(ProtocolError::InvalidLocker);
        }
        if !keys_eq(&self.locker.governor, &self.authority.governor) {
            return Err(ProtocolError::GovernorMismatch);
        }
        if !keys_eq(&self.authority.governor_smart_wallet, &self.authority.smart_wallet) {
            return Err(ProtocolError::SmartWalletMismatch);
        }
        Ok(())
    }

    /// Clears the proof.
    pub fn process(&mut self)
        ensures
            final(self).proof.proof_type == 0,
            is_zero_key(final(self).proof.proof_address),
            is_zero_key(final(self).proof.locker),
            final(self).locker_key == old(self).locker_key,
            final(self).locker == old(self).locker,
    {
        self.proof.proof_address = Pubkey::default_key();
        self.proof.locker = Pubkey::default_key();
        self.proof.proof_type = 0;
    }
}

/// Changes who may vote with an escrow's voting power.
pub struct SetVoteDelegate {
    pub escrow: Escrow,
    pub escrow_owner: Pubkey,
}

impl SetVoteDelegate {
    pub fn validate(&self) -> (r: Result<(), ProtocolError>)
        ensures
            r == check(self.escrow.owner@ == self.escrow_owner@, ProtocolError::InvalidAccountOwner),
    {
        if !keys_eq(&self.escrow.owner, &self.escrow_owner) {
            return Err(ProtocolError::InvalidAccountOwner);
        }
        Ok(())
    }

    pub fn process(&mut self, new_delegate: Pubkey) -> (r: SetVoteDelegateEvent)
        ensures
            *final(self) == (SetVoteDelegate {
                escrow: Escrow { vote_delegate: new_delegate, ..old(self).escrow },
                ..*old(self)
            }),
            r == (SetVoteDelegateEvent {
                escrow_owner: old(self).escrow.owner,
                old_delegate: old(self).escrow.vote_delegate,
                new_delegate,
            }),
    {
        let old_delegate = self.escrow.vote_delegate;
        self.escrow.vote_delegate = new_delegate;
        SetVoteDelegateEvent { escrow_owner: self.escrow.owner, old_delegate, new_delegate }
    }
}

/// A vote to cast on a proposal with an escrow's voting power.
pub struct CastVote {
    pub locker_key: Pubkey,
    pub locker: Locker,
    pub escrow: Escrow,
    pub vote_delegate: Pubkey,
    pub governor: Pubkey,
    pub proposal_key: Pubkey,
    /// The governor of the proposal.
    pub proposal_governor: Pubkey,
    /// Whether the proposal is open for voting.
    pub proposal_active: bool,
    /// The proposal of the vote record.
    pub vote_proposal: Pubkey,
    /// The voter of the vote record.
    pub vote_voter: Pubkey,
}

impl CastVote {
    pub open spec fn validate_spec(&self) -> Result<(), ProtocolError> {
        if self.escrow.locker@ != self.locker_key@ {
            Err(ProtocolError::InvalidLocker)
        } else if self.escrow.vote_delegate@ != self.vote_delegate@ {
            Err(ProtocolError::InvalidVoteDelegate)
        } else if self.locker.governor@ != self.governor@ {
            Err(ProtocolError::GovernorMismatch)
        } else if self.proposal_governor@ != self.governor@ {
            Err(ProtocolError::GovernorMismatch)
        } else if self.vote_proposal@ != self.proposal_key@ {
            Err(ProtocolError::ProposalMismatch)
        } else if self.vote_voter@ != self.escrow.owner@ {
            Err(ProtocolError::VoterMismatch)
        } else {
            check(self.proposal_active, ProtocolError::ProposalMustBeActive)
        }
    }

    /// Only the escrow's delegate may vote, on an active proposal of the locker's governor.
    pub fn validate(&self) -> (r: Result<(), ProtocolError>)
        ensures
            r == self.validate_spec(),
    {
        if !keys_eq(&self.escrow.locker, &self.locker_key) {
            return Err(ProtocolError::InvalidLocker);
        }
        if !keys_eq(&self.escrow.vote_delegate, &self.vote_delegate) {
            return Err(ProtocolError::InvalidVoteDelegate);
        }
        if !keys_eq(&self.locker.governor, &self.governor) {
            return Err(ProtocolError::GovernorMismatch);
        }
        if !keys_eq(&self.proposal_governor, &self.governor) {
            return Err(ProtocolError::GovernorMismatch);
        }
        if !keys_eq(&self.vote_proposal, &self.proposal_key) {
            return Err(ProtocolError::ProposalMismatch);
        }
        if !keys_eq(&self.vote_voter, &self.escrow.owner) {
            return Err(ProtocolError::VoterMismatch);
        }
        if !self.proposal_active {
            return Err(ProtocolError::ProposalMustBeActive);
        }
        Ok(())
    }

    /// The weight to vote with at `now`; `None` where the escrow has no voting power, in
    /// which case no vote is cast.
    pub fn process(&self, now: i64) -> (r: Result<Option<u64>, ProtocolError>)
        ensures
            match self.locker.params.voter_power_spec(self.escrow, now) {
                None => r == Err::<Option<u64>, ProtocolError>(ProtocolError::MathOverflow),
                Some(p) => r == Ok::<Option<u64>, ProtocolError>(
                    if p == 0 {
                        None
                    } else {
                        Some(p)
                    },
                ),
            },
    {
        let voting_power = self.escrow.voting_power(&self.locker.params, now)?;
        if voting_power == 0 {
            return Ok(None);
        }
        Ok(Some(voting_power))
    }
}

/// Activation of a proposal by an escrow owner with enough voting power.
pub struct ActivateProposal {
    pub locker_key: Pubkey,
    pub locker: Locker,
    pub governor: Pubkey,
    /// The electorate of the governor.
    pub governor_electorate: Pubkey,
    /// The governor of the proposal.
    pub proposal_governor: Pubkey,
    pub escrow: Escrow,
    pub escrow_owner: Pubkey,
}

impl ActivateProposal {
    pub open spec fn validate_spec(&self, now: i64) -> Result<(), ProtocolError> {
        if self.locker_key@ != self.governor_electorate@ || self.governor@ != self.locker.governor@
            || self.proposal_governor@ != self.governor@ || self.escrow.locker@ != self.locker_key@
            || self.escrow.owner@ != self.escrow_owner@ {
            Err(ProtocolError::KeyMismatch)
        } else {
            match self.locker.params.voter_power_spec(self.escrow, now) {
                None => Err(ProtocolError::MathOverflow),
                Some(p) => check(
                    p >= self.locker.params.proposal_activation_min_votes,
                    ProtocolError::InsufficientVotingPower,
                ),
            }
        }
    }

    /// The accounts must belong together and the escrow must have at least the
    /// activation threshold of voting power at `now`.
    pub fn validate(&self, now: i64) -> (r: Result<(), ProtocolError>)
        ensures
            r == self.validate_spec(now),
    {
        if !keys_eq(&self.locker_key, &self.governor_electorate) {
            return Err(ProtocolError::KeyMismatch);
        }
        if !keys_eq(&self.governor, &self.locker.governor) {
            return Err(ProtocolError::KeyMismatch);
        }
        if !keys_eq(&self.proposal_governor, &self.governor) {
            return Err(ProtocolError::KeyMismatch);
        }
        if !keys_eq(&self.escrow.locker, &self.locker_key) {
            return Err(ProtocolError::KeyMismatch);
        }
        if !keys_eq(&self.escrow.owner, &self.escrow_owner) {
            return Err(ProtocolError::KeyMismatch);
        }
        let voting_power = self.escrow.voting_power(&self.locker.params, now)?;
        if voting_power < self.locker.params.proposal_activation_min_votes {
            return Err(ProtocolError::InsufficientVotingPower);
        }
        Ok(())
    }
}

/// Creates the locker's treasury for a mint, from which NFT rewards are paid.
pub struct InitTreasury {
    pub locker: Locker,
    pub token_mint: Pubkey,
    pub authority: GovernorAuthority,
}

impl InitTreasury {
    pub open spec fn validate_spec(&self) -> Result<(), ProtocolError> {
        if self.locker.token_mint@ != self.token_mint@ {
            Err(ProtocolError::InvalidLockerMint)
        } else if self.locker.governor@ != self.authority.governor@ {
            Err(ProtocolError::GovernorMismatch)
        } else {
            check(
                self.authority.governor_smart_wallet@ == self.authority.smart_wallet@,
                ProtocolError::SmartWalletMismatch,
            )
        }
    }

    /// The treasury holds the locker's own token, and only its governor creates it.
    pub fn validate(&self) -> (r: Result<(), ProtocolError>)
        ensures
            r == self.validate_spec(),
    {
        if !keys_eq(&self.locker.token_mint, &self.token_mint) {
            return Err(ProtocolError::InvalidLockerMint);
        }
        if !keys_eq(&self.locker.governor, &self.authority.governor) {
            return Err(ProtocolError::GovernorMismatch);
        }
        if !keys_eq(&self.authority.governor_smart_wallet, &self.authority.smart_wallet) {
            return Err(ProtocolError::SmartWalletMismatch);
        }
        Ok(())
    }
}

/// Hands the minting authority of the whitelist token to the locker.
pub struct SetWLMintAuthority {
    pub locker_key: Pubkey,
    pub locker: Locker,
    pub wl_token_mint: Pubkey,
    pub current_authority: Pubkey,
}

impl SetWLMintAuthority {
    pub fn validate(&self) -> (r: Result<(), ProtocolError>)
        ensures
            r == check(
                self.wl_token_mint@ == self.locker.wl_token_mint@,
                ProtocolError::InvalidLockerWLMint,
            ),
    {
        if !keys_eq(&self.wl_token_mint, &self.locker.wl_token_mint) {
            return Err(ProtocolError::InvalidLockerWLMint);
        }
        Ok(())
    }

    pub fn process(&self) -> (r: TokenInstruction)
        ensures
            r == (TokenInstruction::SetMintAuthority {
                mint: self.wl_token_mint,
                current_authority: self.current_authority,
                new_authority: self.locker_key,
            }),
    {
        TokenInstruction::SetMintAuthority {
            mint: self.wl_token_mint,
            current_authority: self.current_authority,
            new_authority: self.locker_key,
        }
    }
}

/// Hands the minting authority of the whitelist token back from the locker.
pub struct ReclaimWLMintAuthority {
    pub locker_key: Pubkey,
    pub locker: Locker,
    pub wl_token_mint: Pubkey,
    pub authority: GovernorAuthority,
}

impl ReclaimWLMintAuthority {
    pub open spec fn validate_spec(&self) -> Result<(), ProtocolError> {
        if self.wl_token_mint@ != self.locker.wl_token_mint@ {
            Err(ProtocolError::InvalidLockerWLMint)
        } else if self.authority.governor@ != self.locker.governor@ {
            Err(ProtocolError::GovernorMismatch)
        } else {
            check(
                self.authority.smart_wallet@ == self.authority.governor_smart_wallet@,
                ProtocolError::SmartWalletMismatch,
            )
        }
    }

    /// Only the locker's governor may take the minting authority back.
    pub fn validate(&self) -> (r: Result<(), ProtocolError>)
        ensures
            r == self.validate_spec(),
    {
        if !keys_eq(&self.wl_token_mint, &self.locker.wl_token_mint) {
            return Err(ProtocolError::InvalidLockerWLMint);
        }
        if !keys_eq(&self.authority.governor, &self.locker.governor) {
            return Err(ProtocolError::GovernorMismatch);
        }
        if !keys_eq(&self.authority.smart_wallet, &self.authority.governor_smart_wallet) {
            return Err(ProtocolError::SmartWalletMismatch);
        }
        Ok(())
    }

    pub fn process(&self, mint_authority: Pubkey) -> (r: TokenInstruction)
        ensures
            r == (TokenInstruction::SetMintAuthority {
                mint: self.wl_token_mint,
                current_authority: self.locker_key,
                new_authority: mint_authority,
            }),
    {
        TokenInstruction::SetMintAuthority {
            mint: self.wl_token_mint,
            current_authority: self.locker_key,
            new_authority: mint_authority,
        }
    }
}

} // verus!
