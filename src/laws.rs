use vstd::prelude::*;

use crate::asset::{creation_error, supply_step, Pubkey, SupplyChange, SyntheticAsset};
use crate::collateral::pricing;
use crate::engine::{burn_outcome, mint_outcome};
use crate::error::ErrorCode;

verus! {

/// The supply after `changes`, one after another from `supply`; `None` where
/// one of them is refused.
pub open spec fn replay(supply: int, changes: Seq<SupplyChange>) -> Option<int>
    decreases changes.len(),
{
    if changes.len() == 0 {
        Some(supply)
    } else {
        match supply_step(supply, changes[0]) {
            Some(s) => replay(s, changes.drop_first()),
            None => None,
        }
    }
}

/// The units that `changes` mint.
pub open spec fn minted(changes: Seq<SupplyChange>) -> int
    decreases changes.len(),
{
    if changes.len() == 0 {
        0
    } else {
        (match changes[0] {
            SupplyChange::Minted(a) => a as int,
            SupplyChange::Burned(_) => 0,
        }) + minted(changes.drop_first())
    }
}

/// The units that `changes` burn.
pub open spec fn burned(changes: Seq<SupplyChange>) -> int
    decreases changes.len(),
{
    if changes.len() == 0 {
        0
    } else {
        (match changes[0] {
            SupplyChange::Minted(_) => 0,
            SupplyChange::Burned(a) => a as int,
        }) + burned(changes.drop_first())
    }
}

/// A record that creation accepts holds the length and range invariants,
/// has issued nothing and is not paused.
pub proof fn lemma_created_asset_is_fresh(
    asset: SyntheticAsset,
    name: Seq<char>,
    symbol: Seq<char>,
    decimals: u8,
    authority: Pubkey,
    mint: Pubkey,
    collateral_mint: Pubkey,
    collateral_ratio: u64,
    created_at: i64,
)
    requires
        collateral_ratio > 0,
        creation_error(name, symbol, decimals) is None,
        asset.created_from(
            name,
            symbol,
            decimals,
            authority,
            mint,
            collateral_mint,
            collateral_ratio,
            created_at,
        ),
    ensures
        asset.wf(),
        asset.total_supply == 0,
        !asset.paused,
{
}

/// Replaying supply changes that are all accepted leaves the supply at the
/// start plus what was minted minus what was burned, and every supply on the
/// way stays between 0 and `u64::MAX`.
pub proof fn lemma_replay_sums(supply: int, changes: Seq<SupplyChange>)
    requires
        0 <= supply <= u64::MAX,
    ensures
        replay(supply, changes) matches Some(t) ==> t == supply + minted(changes) - burned(changes)
            && 0 <= t <= u64::MAX,
    decreases changes.len(),
{
    if changes.len() > 0 {
        if let Some(s) = supply_step(supply, changes[0]) {
            lemma_replay_sums(s, changes.drop_first());
        }
    }
}

/// A mint that offers less collateral than its price requires is refused for
/// insufficient collateral, and so changes neither the record nor the custody
/// balance.
pub proof fn lemma_undercollateralized_mint_fails(
    asset: SyntheticAsset,
    vault: u64,
    asset_key: Pubkey,
    user: Pubkey,
    amount: u64,
    collateral_amount: u64,
    price: Option<u64>,
    required: u64,
)
    requires
        !asset.paused,
        collateral_amount > 0,
        pricing(amount, price, asset.collateral_ratio) == Ok::<u64, ErrorCode>(required),
        collateral_amount < required,
    ensures
        mint_outcome(asset, vault, asset_key, user, amount, collateral_amount, price) == Err::<
            (SyntheticAsset, u64, crate::events::SyntheticMinted),
            ErrorCode,
        >(ErrorCode::InsufficientCollateral),
{
}

/// Minting `amount` and then burning `amount` at the same price succeeds,
/// releases exactly the collateral the mint required, and brings the supply
/// back to where it was.
pub proof fn lemma_mint_then_burn_round_trip(
    asset: SyntheticAsset,
    vault: u64,
    asset_key: Pubkey,
    user: Pubkey,
    amount: u64,
    collateral_amount: u64,
    price: Option<u64>,
)
    requires
        mint_outcome(asset, vault, asset_key, user, amount, collateral_amount, price) is Ok,
    ensures
        ({
            let (minted_asset, minted_vault, _) = mint_outcome(
                asset,
                vault,
                asset_key,
                user,
                amount,
                collateral_amount,
                price,
            )->Ok_0;
            let required = pricing(amount, price, asset.collateral_ratio)->Ok_0;
            burn_outcome(minted_asset, minted_vault, asset_key, user, amount, price) matches Ok(
                (burned_asset, burned_vault, ev),
            ) && ev.collateral_returned == required && burned_asset == asset && burned_vault
                == vault + collateral_amount - required
        }),
{
    let required = pricing(amount, price, asset.collateral_ratio)->Ok_0;
    let (minted_asset, minted_vault, _) = mint_outcome(
        asset,
        vault,
        asset_key,
        user,
        amount,
        collateral_amount,
        price,
    )->Ok_0;
    assert(minted_asset.collateral_ratio == asset.collateral_ratio);
    let (burned_asset, _, _) = burn_outcome(minted_asset, minted_vault, asset_key, user, amount, price)->Ok_0;
    assert(burned_asset == asset);
}

/// A mint that succeeds adds at least the collateral its price requires to
/// custody, and exactly the units asked for to the supply.
pub proof fn lemma_mint_posts_required_collateral(
    asset: SyntheticAsset,
    vault: u64,
    asset_key: Pubkey,
    user: Pubkey,
    amount: u64,
    collateral_amount: u64,
    price: Option<u64>,
)
    requires
        mint_outcome(asset, vault, asset_key, user, amount, collateral_amount, price) is Ok,
    ensures
        ({
            let (minted_asset, minted_vault, _) = mint_outcome(
                asset,
                vault,
                asset_key,
                user,
                amount,
                collateral_amount,
                price,
            )->Ok_0;
            &&& pricing(amount, price, asset.collateral_ratio) is Ok
            &&& minted_vault >= vault + pricing(amount, price, asset.collateral_ratio)->Ok_0
            &&& minted_asset.total_supply == asset.total_supply + amount
        }),
{
}

/// A paused asset refuses every mint and every burn with `AssetPaused`.
pub proof fn lemma_paused_asset_refuses(
    asset: SyntheticAsset,
    vault: u64,
    asset_key: Pubkey,
    user: Pubkey,
    amount: u64,
    collateral_amount: u64,
    price: Option<u64>,
)
    requires
        asset.paused,
    ensures
        mint_outcome(asset, vault, asset_key, user, amount, collateral_amount, price) matches Err(
            e,
        ) && e == ErrorCode::AssetPaused,
        burn_outcome(asset, vault, asset_key, user, amount, price) matches Err(e) && e
            == ErrorCode::AssetPaused,
{
}

/// On an active asset, a mint or a burn of zero units is refused with
/// `InvalidAmount`, whatever else the request holds.
pub proof fn lemma_zero_amount_refused(
    asset: SyntheticAsset,
    vault: u64,
    asset_key: Pubkey,
    user: Pubkey,
    collateral_amount: u64,
    price: Option<u64>,
)
    requires
        !asset.paused,
    ensures
        mint_outcome(asset, vault, asset_key, user, 0, collateral_amount, price) matches Err(e)
            && e == ErrorCode::InvalidAmount,
        burn_outcome(asset, vault, asset_key, user, 0, price) matches Err(e) && e
            == ErrorCode::InvalidAmount,
{
}

} // verus!
