//! Collateral requirements for futures and options positions, and the share
//! accounting of a pooled deposit vault.

pub mod error;
pub mod fixed_point;
pub mod margin;
pub mod oracle;
pub mod types;
pub mod vault;

pub use error::{FuzeErrorCode, VaultError};
pub use margin::{
    get_initial_margin_per_lot, get_maintenance_margin_per_lot, get_otm_amount, margin_per_lot,
};
pub use vault::{shares_for_deposit, DepositToVault};
pub use oracle::{get_native_oracle_price, get_oracle_price, normalize_price};
pub use types::{
    get_products_slice_market_index, Kind, MarginParameters, Side, TierPercentages,
    NATIVE_PRECISION_DENOMINATOR, NUM_PRODUCTS_PER_SERIES, NUM_STRIKES, PLATFORM_PRECISION,
};
