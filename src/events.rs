use vstd::prelude::*;

use crate::asset::Pubkey;

verus! {

/// Emitted when an asset is created.
#[derive(Clone, Debug, PartialEq, Eq)]
pub struct SyntheticAssetCreated {
    pub asset: Pubkey,
    pub authority: Pubkey,
    pub mint: Pubkey,
    pub collateral_mint: Pubkey,
    pub name: String,
    pub symbol: String,
    pub decimals: u8,
}

/// Emitted when units are minted against posted collateral.
#[derive(Clone, Copy, Debug, PartialEq, Eq)]
pub struct SyntheticMinted {
    pub asset: Pubkey,
    pub user: Pubkey,
    pub amount: u64,
    pub collateral_amount: u64,
}

/// Emitted when units are burned and collateral is released.
#[derive(Clone, Copy, Debug, PartialEq, Eq)]
pub struct SyntheticBurned {
    pub asset: Pubkey,
    pub user: Pubkey,
    pub amount: u64,
    pub collateral_returned: u64,
}

} // verus!
