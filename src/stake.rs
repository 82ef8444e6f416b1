pub mod error;
pub mod state;
pub mod utils;
pub mod context;
