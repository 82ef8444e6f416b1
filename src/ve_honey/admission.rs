//! Proofs that an NFT mint or creator may be locked, and the whitelist of programs
//! that may lock on behalf of owners.
use vstd::prelude::*;
use crate::pubkey::Pubkey;
use crate::ve_honey::error::ProtocolError;

verus! {

/// The flag of a proof for a verified creator.
pub const CREATOR: u8 = 1;

/// The flag of a proof for a mint.
pub const MINT: u8 = 2;

/// A set of proof flags: `CREATOR`, `MINT`, or both.
#[derive(Clone, Copy, Debug, PartialEq, Eq, Structural)]
pub struct ProofType {
    pub bits: u8,
}

impl ProofType {
    /// Only the two known flags may be set.
    pub open spec fn wf(self) -> bool {
        self.bits <= 3
    }

    pub fn creator() -> (r: ProofType)
        ensures
            r.bits == CREATOR,
    {
        ProofType { bits: CREATOR }
    }

    pub fn mint() -> (r: ProofType)
        ensures
            r.bits == MINT,
    {
        ProofType { bits: MINT }
    }

    /// The flags in `bits`, or `None` where an unknown flag is set.
    pub fn from_bits(bits: u8) -> (r: Option<ProofType>)
        ensures
            bits <= 3 ==> r == Some(ProofType { bits }),
            bits > 3 ==> r is None,
    {
        // no flag but CREATOR and MINT
        if bits & 0xfc == 0 {
            proof {
                assert(bits & 0xfcu8 == 0u8 ==> bits <= 3u8) by (bit_vector);
            }
            Some(ProofType { bits })
        } else {
            proof {
                assert(bits <= 3u8 ==> bits & 0xfcu8 == 0u8) by (bit_vector);
            }
            None
        }
    }

    pub fn bits(&self) -> (r: u8)
        ensures
            r == self.bits,
    {
        self.bits
    }

    /// Whether every flag of `other` is set in `self`.
    pub fn contains(&self, other: ProofType) -> (r: bool)
        ensures
            r == (self.bits & other.bits == other.bits),
    {
        self.bits & other.bits == other.bits
    }
}

/// A governor's attestation that an address may be used to lock NFTs.
#[derive(Clone, Copy, Debug, Default)]
pub struct Proof {
    /// The locker this proof belongs to.
    pub locker: Pubkey,
    /// Flags saying whether the address is a mint, a creator, or both.
    pub proof_type: u8,
    /// The attested address.
    pub proof_address: Pubkey,
}

impl Proof {
    /// The flags in `proof_type`; `InvariantViolated` where an unknown flag is set.
    pub fn read_type(proof_type: u8) -> (r: Result<ProofType, ProtocolError>)
        ensures
            proof_type <= 3 ==> r == Ok::<ProofType, ProtocolError>(ProofType { bits: proof_type }),
            proof_type > 3 ==> r == Err::<ProofType, ProtocolError>(ProtocolError::InvariantViolated),
    {
        match ProofType::from_bits(proof_type) {
            Some(t) => Ok(t),
            None => Err(ProtocolError::InvariantViolated),
        }
    }

    pub fn reset_type(&mut self, proof_type: ProofType)
        ensures
            *final(self) == (Proof { proof_type: proof_type.bits, ..*old(self) }),
    {
        self.proof_type = proof_type.bits();
    }

    pub open spec fn contains_type_spec(self, expected: ProofType) -> Result<(), ProtocolError> {
        if self.proof_type > 3 {
            Err(ProtocolError::InvariantViolated)
        } else if self.proof_type & expected.bits != expected.bits {
            Err(ProtocolError::InvalidProofType)
        } else {
            Ok(())
        }
    }

    /// Whether this proof carries every flag of `expected_proof_type`.
    pub fn contains_type(&self, expected_proof_type: ProofType) -> (r: Result<(), ProtocolError>)
        ensures
            r == self.contains_type_spec(expected_proof_type),
    {
        let proof_type = Proof::read_type(self.proof_type)?;
        if !proof_type.contains(expected_proof_type) {
            return Err(ProtocolError::InvalidProofType);
        }
        Ok(())
    }
}

/// A program allowed to lock into a locker, for one owner or (with the system program's
/// address as owner) for every owner.
#[derive(Clone, Copy, Debug, Default)]
pub struct WhitelistEntry {
    /// The locker this entry belongs to.
    pub locker: Pubkey,
    /// Bump seed of the entry's address.
    pub bump: u8,
    /// The program allowed to call `lock`.
    pub program_id: Pubkey,
    /// The escrow owner it may lock for; the system program's address for any owner.
    pub owner: Pubkey,
}

} // verus!
