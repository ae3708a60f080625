use vstd::prelude::*;

verus! {

/// The persisted record of one pool: its identity, fee and pause flag.
#[derive(Clone, Copy)]
pub struct Config {
    /// Part of the key from which the pool's identity is derived.
    pub seed: u64,
    /// Identifier of the first pooled asset.
    pub mint_x: [u8; 32],
    /// Identifier of the second pooled asset.
    pub mint_y: [u8; 32],
    /// Swap fee in basis points, charged on the input leg.
    pub fee: u16,
    /// When set, swaps and withdrawals are refused.
    pub locked: bool,
    /// Derivation material of the pool's signing authority.
    pub config_bump: u8,
    /// Derivation material of the liquidity-share mint.
    pub lp_bump: u8,
}

} // verus!
