use vstd::prelude::*;

verus! {

/// Errors of the margin engine and of the price helpers.
#[derive(Clone, Copy, Debug, PartialEq, Eq, Structural)]
pub enum FuzeErrorCode {
    AccountNotMutable,
    UnsupportedKind,
    ProductStrikeUninitialized,
    InvalidProductMarketKey,
    MarketNotLive,
    ProductDirty,
    InvalidOptionKind,
    /// A checked multiply, a division by zero, or a narrowing that would lose
    /// magnitude.
    ArithmeticOverflow,
    /// An option side that was never initialised reached a margin computation.
    InvalidInvariantState,
}

impl FuzeErrorCode {
    /// The message that goes with each error.
    pub fn message(&self) -> (r: &'static str) {
        match self {
            FuzeErrorCode::AccountNotMutable => "Account not mutable",
            FuzeErrorCode::UnsupportedKind => "Unsupported kind",
            FuzeErrorCode::ProductStrikeUninitialized => "Product strike uninitialized",
            FuzeErrorCode::InvalidProductMarketKey => "Invalid product market key",
            FuzeErrorCode::MarketNotLive => "Market not live",
            FuzeErrorCode::ProductDirty => "Product dirty",
            FuzeErrorCode::InvalidOptionKind => "Invalid option kind, must be Call or Put",
            FuzeErrorCode::ArithmeticOverflow => "Arithmetic overflow",
            FuzeErrorCode::InvalidInvariantState => "Invalid invariant state",
        }
    }
}

/// Errors of the vault's deposit path.
#[derive(Clone, Copy, Debug, PartialEq, Eq, Structural)]
pub enum VaultError {
    /// The deposit would take the vault past its deposit limit.
    VaultIsFull,
    /// The share price cannot be computed, or the share amount does not fit.
    MathOverflow,
}

} // verus!
