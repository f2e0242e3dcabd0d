use vstd::prelude::*;

use crate::error::ErrorCode;

verus! {

/// Fixed-point denominator of an oracle price: a price of `2_000_000` is 2.0.
pub const PRICE_SCALE: u64 = 1_000_000;

/// Fixed-point denominator of a collateral ratio, in basis points:
/// a ratio of `15_000` is 150%.
pub const RATIO_SCALE: u64 = 10_000;

/// The collateral that `amount` units are worth at `price`, at `ratio`:
/// `amount * price * ratio / (PRICE_SCALE * RATIO_SCALE)`, rounded down.
pub open spec fn collateral_value(amount: int, price: int, ratio: int) -> int {
    (amount * price * ratio) / ((PRICE_SCALE as int) * (RATIO_SCALE as int))
}

/// Whether pricing `amount` at `price` and `ratio` stays within the widths:
/// the full product fits in 128 bits and the result in 64.
pub open spec fn collateral_fits(amount: int, price: int, ratio: int) -> bool {
    amount * price * ratio <= u128::MAX as int
        && collateral_value(amount, price, ratio) <= u64::MAX as int
}

/// Oldest oracle reading, in seconds, that may still price a request.
pub const MAX_PRICE_AGE: i64 = 60;

/// Whether a reading published at `published_at` is recent at `now`: not
/// from the future, and at most `max_age` seconds old.
pub open spec fn is_fresh(published_at: i64, now: i64, max_age: i64) -> bool {
    published_at <= now && now - published_at <= max_age
}

/// The price of an oracle reading if it is fresh at `now`; `None` for a stale
/// one.
pub fn oracle_price(price: u64, published_at: i64, now: i64, max_age: i64) -> (r: Option<u64>)
    ensures
        is_fresh(published_at, now, max_age) ==> r == Some(price),
        !is_fresh(published_at, now, max_age) ==> r is None,
{
    if published_at > now {
        return None;
    }
    let age = now as i128 - published_at as i128;
    if age <= max_age as i128 {
        Some(price)
    } else {
        None
    }
}

/// Whether an oracle reading can price a request: one was given and it is
/// positive.
pub open spec fn usable_price(price: Option<u64>) -> bool {
    match price {
        Some(p) => p > 0,
        None => false,
    }
}

/// The price of a usable reading.
pub open spec fn price_of(price: Option<u64>) -> int {
    match price {
        Some(p) => p as int,
        None => 0,
    }
}

/// What pricing `amount` at `price` and `ratio` gives: the error of the first
/// check that fails, or the collateral value.
pub open spec fn pricing(amount: u64, price: Option<u64>, ratio: u64) -> Result<u64, ErrorCode> {
    if amount == 0 {
        Err(ErrorCode::InvalidAmount)
    } else if !usable_price(price) {
        Err(ErrorCode::PriceUnavailable)
    } else if !collateral_fits(amount as int, price_of(price), ratio as int) {
        Err(ErrorCode::Overflow)
    } else {
        Ok(collateral_value(amount as int, price_of(price), ratio as int) as u64)
    }
}

/// Takes the price out of an oracle reading, refusing a missing or zero one.
pub fn checked_price(price: Option<u64>) -> (r: Result<u64, ErrorCode>)
    ensures
        usable_price(price) ==> r == Ok::<u64, ErrorCode>(price_of(price) as u64),
        !usable_price(price) ==> r == Err::<u64, ErrorCode>(ErrorCode::PriceUnavailable),
{
    match price {
        Some(p) => {
            if p > 0 {
                Ok(p)
            } else {
                Err(ErrorCode::PriceUnavailable)
            }
        },
        None => Err(ErrorCode::PriceUnavailable),
    }
}

/// `amount * price * ratio / (PRICE_SCALE * RATIO_SCALE)` with every step
/// checked: the product is formed in 128 bits and the quotient must fit in 64.
fn scaled_value(amount: u64, price: u64, ratio: u64) -> (r: Option<u64>)
    ensures
        collateral_fits(amount as int, price as int, ratio as int) ==> r == Some(
            collateral_value(amount as int, price as int, ratio as int) as u64,
        ),
        !collateral_fits(amount as int, price as int, ratio as int) ==> r is None,
{
    let a = amount as u128;
    let p = price as u128;
    let q = ratio as u128;
    assert((a as int) * (p as int) <= (u64::MAX as int) * (u64::MAX as int)) by (nonlinear_arith)
        requires
            a <= u64::MAX,
            p <= u64::MAX,
    ;
    let value = a * p;
    match value.checked_mul(q) {
        Some(full) => {
            let denominator: u128 = (PRICE_SCALE as u128) * (RATIO_SCALE as u128);
            let scaled = full / denominator;
            if scaled <= u64::MAX as u128 {
                Some(scaled as u64)
            } else {
                None
            }
        },
        None => None,
    }
}

/// The collateral that must be posted to mint `amount` units at the oracle
/// reading `price` under the collateral ratio `ratio`.
pub fn calculate_required_collateral(amount: u64, price: Option<u64>, ratio: u64) -> (r: Result<
    u64,
    ErrorCode,
>)
    ensures
        r == pricing(amount, price, ratio),
{
    if amount == 0 {
        return Err(ErrorCode::InvalidAmount);
    }
    let p = match checked_price(price) {
        Ok(p) => p,
        Err(e) => {
            return Err(e);
        },
    };
    match scaled_value(amount, p, ratio) {
        Some(v) => Ok(v),
        None => Err(ErrorCode::Overflow),
    }
}

/// The collateral released for burning `amount` units at the oracle reading
/// `price` under the collateral ratio `ratio`: the same valuation as a mint,
/// at the price of the burn.
pub fn calculate_collateral_return(amount: u64, price: Option<u64>, ratio: u64) -> (r: Result<
    u64,
    ErrorCode,
>)
    ensures
        r == pricing(amount, price, ratio),
{
    calculate_required_collateral(amount, price, ratio)
}

} // verus!
