use vstd::prelude::*;

use crate::asset::{creation_error, Pubkey, SyntheticAsset};
use crate::collateral::{calculate_collateral_return, calculate_required_collateral, pricing};
use crate::error::ErrorCode;
use crate::events::{SyntheticAssetCreated, SyntheticBurned, SyntheticMinted};

verus! {

/// What a mint request does, decided in the order the engine checks:
/// the asset record and the custody balance after it, and the event it
/// emits; or the error of the first check that fails.
pub open spec fn mint_outcome(
    asset: SyntheticAsset,
    vault: u64,
    asset_key: Pubkey,
    user: Pubkey,
    amount: u64,
    collateral_amount: u64,
    price: Option<u64>,
) -> Result<(SyntheticAsset, u64, SyntheticMinted), ErrorCode> {
    if asset.paused {
        Err(ErrorCode::AssetPaused)
    } else if amount == 0 {
        Err(ErrorCode::InvalidAmount)
    } else if collateral_amount == 0 {
        Err(ErrorCode::InvalidCollateralAmount)
    } else {
        match pricing(amount, price, asset.collateral_ratio) {
            Err(e) => Err(e),
            Ok(required) => {
                if collateral_amount < required {
                    Err(ErrorCode::InsufficientCollateral)
                } else if vault + collateral_amount > u64::MAX {
                    Err(ErrorCode::Overflow)
                } else if asset.total_supply + amount > u64::MAX {
                    Err(ErrorCode::Overflow)
                } else {
                    Ok(
                        (
                            SyntheticAsset {
                                total_supply: (asset.total_supply + amount) as u64,
                                ..asset
                            },
                            (vault + collateral_amount) as u64,
                            SyntheticMinted { asset: asset_key, user, amount, collateral_amount },
                        ),
                    )
                }
            },
        }
    }
}

/// What a burn request does, decided in the order the engine checks:
/// the asset record and the custody balance after it, and the event it
/// emits; or the error of the first check that fails.
pub open spec fn burn_outcome(
    asset: SyntheticAsset,
    vault: u64,
    asset_key: Pubkey,
    user: Pubkey,
    amount: u64,
    price: Option<u64>,
) -> Result<(SyntheticAsset, u64, SyntheticBurned), ErrorCode> {
    if asset.paused {
        Err(ErrorCode::AssetPaused)
    } else if amount == 0 {
        Err(ErrorCode::InvalidAmount)
    } else {
        match pricing(amount, price, asset.collateral_ratio) {
            Err(e) => Err(e),
            Ok(returned) => {
                if vault < returned {
                    Err(ErrorCode::InsufficientCollateral)
                } else if amount > asset.total_supply {
                    Err(ErrorCode::Overflow)
                } else {
                    Ok(
                        (
                            SyntheticAsset {
                                total_supply: (asset.total_supply - amount) as u64,
                                ..asset
                            },
                            (vault - returned) as u64,
                            SyntheticBurned {
                                asset: asset_key,
                                user,
                                amount,
                                collateral_returned: returned,
                            },
                        ),
                    )
                }
            },
        }
    }
}

/// Creates an asset: validates the inputs, builds the record with no units
/// issued and not paused, and the event that announces it.
pub fn initialize_synthetic_asset(
    asset_key: Pubkey,
    name: String,
    symbol: String,
    decimals: u8,
    authority: Pubkey,
    mint: Pubkey,
    collateral_mint: Pubkey,
    collateral_ratio: u64,
    created_at: i64,
) -> (r: Result<(SyntheticAsset, SyntheticAssetCreated), ErrorCode>)
    requires
        collateral_ratio > 0,
    ensures
        match creation_error(name@, symbol@, decimals) {
            Some(e) => r == Err::<(SyntheticAsset, SyntheticAssetCreated), ErrorCode>(e),
            None => r matches Ok((a, ev)) && a.created_from(
                name@,
                symbol@,
                decimals,
                authority,
                mint,
                collateral_mint,
                collateral_ratio,
                created_at,
            ) && ev.asset == asset_key && ev.authority == authority && ev.mint == mint
                && ev.collateral_mint == collateral_mint && ev.name@ == name@ && ev.symbol@
                == symbol@ && ev.decimals == decimals,
        },
        r matches Ok((a, _)) ==> a.wf(),
{
    let asset = match SyntheticAsset::create(
        name,
        symbol,
        decimals,
        authority,
        mint,
        collateral_mint,
        collateral_ratio,
        created_at,
    ) {
        Ok(a) => a,
        Err(e) => {
            return Err(e);
        },
    };
    let event = SyntheticAssetCreated {
        asset: asset_key,
        authority: asset.authority,
        mint: asset.mint,
        collateral_mint: asset.collateral_mint,
        name: asset.name.clone(),
        symbol: asset.symbol.clone(),
        decimals: asset.decimals,
    };
    Ok((asset, event))
}

/// Mints `amount` units to `user` against `collateral_amount` posted into the
/// asset's custody, whose balance is `vault`, at the oracle reading `price`.
/// All or nothing: a refused request changes neither the record nor the
/// custody balance.
pub fn mint_synthetic(
    asset: &mut SyntheticAsset,
    vault: &mut u64,
    asset_key: Pubkey,
    user: Pubkey,
    amount: u64,
    collateral_amount: u64,
    price: Option<u64>,
) -> (r: Result<SyntheticMinted, ErrorCode>)
    ensures
        match mint_outcome(*old(asset), *old(vault), asset_key, user, amount, collateral_amount, price) {
            Ok((a, v, ev)) => r == Ok::<SyntheticMinted, ErrorCode>(ev) && *final(asset) == a
                && *final(vault) == v,
            Err(e) => r == Err::<SyntheticMinted, ErrorCode>(e) && *final(asset) == *old(asset)
                && *final(vault) == *old(vault),
        },
        old(asset).wf() ==> final(asset).wf(),
{
    if let Err(e) = asset.check_active() {
        return Err(e);
    }
    if amount == 0 {
        return Err(ErrorCode::InvalidAmount);
    }
    if collateral_amount == 0 {
        return Err(ErrorCode::InvalidCollateralAmount);
    }
    let required = match calculate_required_collateral(amount, price, asset.collateral_ratio) {
        Ok(c) => c,
        Err(e) => {
            return Err(e);
        },
    };
    if collateral_amount < required {
        return Err(ErrorCode::InsufficientCollateral);
    }
    let new_vault = match vault.checked_add(collateral_amount) {
        Some(v) => v,
        None => {
            return Err(ErrorCode::Overflow);
        },
    };
    if let Err(e) = asset.apply_mint_delta(amount) {
        return Err(e);
    }
    *vault = new_vault;
    Ok(SyntheticMinted { asset: asset_key, user, amount, collateral_amount })
}

/// Burns `amount` units of `user` and releases their collateral, priced at
/// the oracle reading `price`, from the asset's custody, whose balance is
/// `vault`. All or nothing: a refused request changes neither the record nor
/// the custody balance.
pub fn burn_synthetic(
    asset: &mut SyntheticAsset,
    vault: &mut u64,
    asset_key: Pubkey,
    user: Pubkey,
    amount: u64,
    price: Option<u64>,
) -> (r: Result<SyntheticBurned, ErrorCode>)
    ensures
        match burn_outcome(*old(asset), *old(vault), asset_key, user, amount, price) {
            Ok((a, v, ev)) => r == Ok::<SyntheticBurned, ErrorCode>(ev) && *final(asset) == a
                && *final(vault) == v,
            Err(e) => r == Err::<SyntheticBurned, ErrorCode>(e) && *final(asset) == *old(asset)
                && *final(vault) == *old(vault),
        },
        old(asset).wf() ==> final(asset).wf(),
{
    if let Err(e) = asset.check_active() {
        return Err(e);
    }
    if amount == 0 {
        return Err(ErrorCode::InvalidAmount);
    }
    let returned = match calculate_collateral_return(amount, price, asset.collateral_ratio) {
        Ok(c) => c,
        Err(e) => {
            return Err(e);
        },
    };
    if *vault < returned {
        return Err(ErrorCode::InsufficientCollateral);
    }
    if let Err(e) = asset.apply_burn_delta(amount) {
        return Err(e);
    }
    *vault = *vault - returned;
    Ok(SyntheticBurned { asset: asset_key, user, amount, collateral_returned: returned })
}

} // verus!
