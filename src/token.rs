//! The token accounts that the programs read, and the token instructions that
//! they hand back for the caller to carry out.
use vstd::prelude::*;
use crate::pubkey::Pubkey;

verus! {

/// The fields of a token account that the programs read.
#[derive(Clone, Copy, Debug)]
pub struct TokenAccount {
    /// Address of the token account.
    pub key: Pubkey,
    /// Mint of the tokens it holds.
    pub mint: Pubkey,
    /// Owner allowed to move its tokens.
    pub owner: Pubkey,
    /// Balance.
    pub amount: u64,
}

/// A token mint and its current minting authority.
#[derive(Clone, Copy, Debug)]
pub struct Mint {
    pub key: Pubkey,
    pub mint_authority: Option<Pubkey>,
}

/// A token instruction that an operation asks the caller to carry out.
#[derive(Clone, Copy, Debug)]
pub enum TokenInstruction {
    /// Move `amount` from `from` to `to`, signed by `authority`.
    Transfer { from: Pubkey, to: Pubkey, authority: Pubkey, amount: u64 },
    /// Create `amount` new tokens of `mint` in `to`, signed by `authority`.
    MintTo { mint: Pubkey, to: Pubkey, authority: Pubkey, amount: u64 },
    /// Destroy `amount` tokens of `mint` held in `from`, signed by `authority`.
    Burn { from: Pubkey, mint: Pubkey, authority: Pubkey, amount: u64 },
    /// Hand the minting authority of `mint` from `current_authority` to `new_authority`.
    SetMintAuthority { mint: Pubkey, current_authority: Pubkey, new_authority: Pubkey },
    /// Close the token account `account`, sending its rent to `destination`.
    CloseAccount { account: Pubkey, destination: Pubkey, authority: Pubkey },
}

} // verus!
