use vstd::prelude::*;
use vstd::utf8::encode_utf8;

use crate::error::ErrorCode;

verus! {

/// Longest name, in bytes of UTF-8.
pub const MAX_NAME_LEN: usize = 32;

/// Longest symbol, in bytes of UTF-8.
pub const MAX_SYMBOL_LEN: usize = 10;

/// Most decimals an asset may have.
pub const MAX_DECIMALS: u8 = 9;

/// The identity of an account: 32 bytes.
#[derive(Clone, Copy, Debug, PartialEq, Eq)]
pub struct Pubkey {
    pub bytes: [u8; 32],
}

impl Pubkey {
    pub fn new(bytes: [u8; 32]) -> (r: Pubkey)
        ensures
            r.bytes == bytes,
    {
        Pubkey { bytes }
    }
}

/// The length in bytes of the UTF-8 encoding of `s`.
pub open spec fn byte_len(s: Seq<char>) -> nat {
    encode_utf8(s).len()
}

/// One change of an asset's supply: units minted or units burned.
pub enum SupplyChange {
    Minted(u64),
    Burned(u64),
}

/// The supply after one change, as `apply_mint_delta` and
/// `apply_burn_delta` make it; `None` where the change is refused.
pub open spec fn supply_step(supply: int, change: SupplyChange) -> Option<int> {
    match change {
        SupplyChange::Minted(a) => if supply + a <= u64::MAX {
            Some(supply + a)
        } else {
            None
        },
        SupplyChange::Burned(a) => if a <= supply {
            Some(supply - a)
        } else {
            None
        },
    }
}

/// The record of one synthetic asset.
#[derive(Clone, Debug)]
pub struct SyntheticAsset {
    pub name: String,
    pub symbol: String,
    pub decimals: u8,
    pub authority: Pubkey,
    /// The mint of the synthetic units.
    pub mint: Pubkey,
    /// The mint of the collateral held in custody.
    pub collateral_mint: Pubkey,
    pub total_supply: u64,
    /// Collateral per unit of value, in basis points of `RATIO_SCALE`.
    pub collateral_ratio: u64,
    pub paused: bool,
    pub created_at: i64,
}

/// Why creation inputs are refused, if they are: the first check that fails.
pub open spec fn creation_error(name: Seq<char>, symbol: Seq<char>, decimals: u8) -> Option<
    ErrorCode,
> {
    if byte_len(name) > MAX_NAME_LEN {
        Some(ErrorCode::NameTooLong)
    } else if byte_len(symbol) > MAX_SYMBOL_LEN {
        Some(ErrorCode::SymbolTooLong)
    } else if decimals > MAX_DECIMALS {
        Some(ErrorCode::InvalidDecimals)
    } else {
        None
    }
}

impl SyntheticAsset {
    /// Bytes that the stored record takes: a type tag, then each field at
    /// its fixed width.
    pub const LEN: usize = 8 + 32 + 10 + 1 + 32 + 32 + 32 + 8 + 8 + 1 + 8;

    /// The invariants that creation establishes and that no later change
    /// breaks.
    pub open spec fn wf(&self) -> bool {
        byte_len(self.name@) <= MAX_NAME_LEN
            && byte_len(self.symbol@) <= MAX_SYMBOL_LEN
            && self.decimals <= MAX_DECIMALS
            && self.collateral_ratio > 0
    }

    /// Whether the record is what a successful creation from these inputs
    /// gives.
    pub open spec fn created_from(
        &self,
        name: Seq<char>,
        symbol: Seq<char>,
        decimals: u8,
        authority: Pubkey,
        mint: Pubkey,
        collateral_mint: Pubkey,
        collateral_ratio: u64,
        created_at: i64,
    ) -> bool {
        &&& self.name@ == name
        &&& self.symbol@ == symbol
        &&& self.decimals == decimals
        &&& self.authority == authority
        &&& self.mint == mint
        &&& self.collateral_mint == collateral_mint
        &&& self.collateral_ratio == collateral_ratio
        &&& self.created_at == created_at
        &&& self.total_supply == 0
        &&& !self.paused
    }

    /// Validates the inputs of a new asset and builds its record, with no
    /// units issued and not paused.
    pub fn create(
        name: String,
        symbol: String,
        decimals: u8,
        authority: Pubkey,
        mint: Pubkey,
        collateral_mint: Pubkey,
        collateral_ratio: u64,
        created_at: i64,
    ) -> (r: Result<SyntheticAsset, ErrorCode>)
        requires
            collateral_ratio > 0,
        ensures
            match creation_error(name@, symbol@, decimals) {
                Some(e) => r == Err::<SyntheticAsset, ErrorCode>(e),
                None => r matches Ok(a) && a.created_from(
                    name@,
                    symbol@,
                    decimals,
                    authority,
                    mint,
                    collateral_mint,
                    collateral_ratio,
                    created_at,
                ),
            },
            r matches Ok(a) ==> a.wf(),
    {
        if name.as_str().as_bytes().len() > MAX_NAME_LEN {
            return Err(ErrorCode::NameTooLong);
        }
        if symbol.as_str().as_bytes().len() > MAX_SYMBOL_LEN {
            return Err(ErrorCode::SymbolTooLong);
        }
        if decimals > MAX_DECIMALS {
            return Err(ErrorCode::InvalidDecimals);
        }
        Ok(SyntheticAsset {
            name,
            symbol,
            decimals,
            authority,
            mint,
            collateral_mint,
            total_supply: 0,
            collateral_ratio,
            paused: false,
            created_at,
        })
    }

    /// Refuses a mint or a burn on a paused asset.
    pub fn check_active(&self) -> (r: Result<(), ErrorCode>)
        ensures
            self.paused ==> r == Err::<(), ErrorCode>(ErrorCode::AssetPaused),
            !self.paused ==> r == Ok::<(), ErrorCode>(()),
    {
        if self.paused {
            Err(ErrorCode::AssetPaused)
        } else {
            Ok(())
        }
    }

    /// Adds `amount` minted units to the supply; refuses, unchanged, a sum
    /// beyond `u64::MAX`.
    pub fn apply_mint_delta(&mut self, amount: u64) -> (r: Result<(), ErrorCode>)
        ensures
            match supply_step(old(self).total_supply as int, SupplyChange::Minted(amount)) {
                Some(s) => r == Ok::<(), ErrorCode>(()) && *final(self) == (SyntheticAsset {
                    total_supply: s as u64,
                    ..*old(self)
                }),
                None => r == Err::<(), ErrorCode>(ErrorCode::Overflow) && *final(self) == *old(self),
            },
    {
        match self.total_supply.checked_add(amount) {
            Some(s) => {
                self.total_supply = s;
                Ok(())
            },
            None => Err(ErrorCode::Overflow),
        }
    }

    /// Takes `amount` burned units off the supply; refuses, unchanged, more
    /// than the supply holds.
    pub fn apply_burn_delta(&mut self, amount: u64) -> (r: Result<(), ErrorCode>)
        ensures
            match supply_step(old(self).total_supply as int, SupplyChange::Burned(amount)) {
                Some(s) => r == Ok::<(), ErrorCode>(()) && *final(self) == (SyntheticAsset {
                    total_supply: s as u64,
                    ..*old(self)
                }),
                None => r == Err::<(), ErrorCode>(ErrorCode::Overflow) && *final(self) == *old(self),
            },
    {
        match self.total_supply.checked_sub(amount) {
            Some(s) => {
                self.total_supply = s;
                Ok(())
            },
            None => Err(ErrorCode::Overflow),
        }
    }
}

} // verus!
