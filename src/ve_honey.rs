pub mod error;
pub mod locker;
pub mod escrow;
pub mod nft_receipt;
pub mod admission;
pub mod events;
pub mod lock_ops;
pub mod release_ops;
pub mod supply;
pub mod admin_ops;
pub mod migration;
