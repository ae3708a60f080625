//! The value-exchange core of a two-asset constant-product market maker:
//! integer curve math, and the swap and withdrawal operations that check a
//! request against a pool snapshot and apply its transfers all at once.

mod error;
pub mod curve;
pub mod state;
pub mod swap;
pub mod withdraw;

pub use error::AmmError;
pub use state::Config;
pub use swap::Swap;
pub use withdraw::Withdraw;
