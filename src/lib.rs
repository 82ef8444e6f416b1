//! Token custody and time-based release engine.
//!
//! Two programs share one design: a pooled aggregate, a per-holder position,
//! and pure release functions of the clock.
//!
//! - [`stake`]: principal vests linearly over a fixed number of periods.
//! - [`ve_honey`]: principal is locked for a duration and yields a voting
//!   weight; burning a qualifying NFT opens a receipt whose reward follows a
//!   halving schedule.
//!
//! The runtime around the programs (account storage, token transfers, the
//! clock) is not part of this crate: every operation takes the current time
//! and the account data as plain values and returns the token instructions
//! that the caller must carry out.
use vstd::prelude::*;

pub mod convert;
pub mod pubkey;
pub mod token;
pub mod stake;
pub mod ve_honey;
