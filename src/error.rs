use vstd::prelude::*;

verus! {

/// Why a request was refused. Every refusal leaves the asset record and the
/// custody balance as they were.
#[derive(Clone, Copy, Debug, PartialEq, Eq, Structural)]
pub enum ErrorCode {
    /// The name is longer than 32 bytes.
    NameTooLong,
    /// The symbol is longer than 10 bytes.
    SymbolTooLong,
    /// More than 9 decimals were asked for.
    InvalidDecimals,
    /// The amount of synthetic units is zero.
    InvalidAmount,
    /// The collateral offered is zero.
    InvalidCollateralAmount,
    /// The collateral offered, or held in custody, does not cover the price.
    InsufficientCollateral,
    /// The asset is paused: it neither mints nor burns.
    AssetPaused,
    /// A quantity would leave the width of its integer type.
    Overflow,
    /// The oracle gave no price, a stale one, or a price of zero.
    PriceUnavailable,
}

impl ErrorCode {
    /// The message that goes with the error.
    pub fn message(&self) -> (r: &'static str)
        ensures
            r@ == match *self {
                ErrorCode::NameTooLong => "Name must be 32 characters or less"@,
                ErrorCode::SymbolTooLong => "Symbol must be 10 characters or less"@,
                ErrorCode::InvalidDecimals => "Decimals must be 9 or less"@,
                ErrorCode::InvalidAmount => "Amount must be greater than 0"@,
                ErrorCode::InvalidCollateralAmount => "Collateral amount must be greater than 0"@,
                ErrorCode::InsufficientCollateral => "Insufficient collateral provided"@,
                ErrorCode::AssetPaused => "Asset is paused"@,
                ErrorCode::Overflow => "Arithmetic overflow"@,
                ErrorCode::PriceUnavailable => "Price is unavailable"@,
            },
    {
        match self {
            ErrorCode::NameTooLong => "Name must be 32 characters or less",
            ErrorCode::SymbolTooLong => "Symbol must be 10 characters or less",
            ErrorCode::InvalidDecimals => "Decimals must be 9 or less",
            ErrorCode::InvalidAmount => "Amount must be greater than 0",
            ErrorCode::InvalidCollateralAmount => "Collateral amount must be greater than 0",
            ErrorCode::InsufficientCollateral => "Insufficient collateral provided",
            ErrorCode::AssetPaused => "Asset is paused",
            ErrorCode::Overflow => "Arithmetic overflow",
            ErrorCode::PriceUnavailable => "Price is unavailable",
        }
    }
}

} // verus!
