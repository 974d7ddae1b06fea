use vstd::prelude::*;

verus! {

/// Fixed-point scale of prices and percentages: `1_000_000` stands for 1.
pub const NATIVE_PRECISION_DENOMINATOR: u64 = 1_000_000;

/// Decimal places of a native price.
pub const PLATFORM_PRECISION: u32 = 6;

/// Strikes listed per expiry series.
pub const NUM_STRIKES: usize = 11;

/// Products per expiry series: a call and a put at each strike, and a future.
pub const NUM_PRODUCTS_PER_SERIES: usize = NUM_STRIKES * 2 + 1;

/// Instrument kind of a product.
#[derive(Clone, Copy, Debug, PartialEq, Eq, Structural)]
pub enum Kind {
    Uninitialized,
    Call,
    Put,
    Future,
}

/// Side of an order or position: `Bid` is long, `Ask` is short.
#[derive(Clone, Copy, Debug, PartialEq, Eq, Structural)]
pub enum Side {
    Uninitialized,
    Bid,
    Ask,
}

pub open spec fn is_option(kind: Kind) -> bool {
    kind is Call || kind is Put
}

/// The margin percentages of one tier (initial or maintenance), each scaled
/// by `NATIVE_PRECISION_DENOMINATOR`.
#[derive(Clone, Copy, Debug, PartialEq, Eq, Structural)]
pub struct TierPercentages {
    pub future: u64,
    pub spot_long: u64,
    pub mark_long: u64,
    pub spot_short: u64,
    pub dynamic_short: u64,
    pub put_cap: u64,
}

/// The risk configuration: percentages scaled by
/// `NATIVE_PRECISION_DENOMINATOR`.
#[derive(Clone, Copy, Debug, PartialEq, Eq, Structural)]
pub struct MarginParameters {
    pub future_margin_initial: u64,
    pub future_margin_maintenance: u64,
    pub option_mark_percentage_long_initial: u64,
    pub option_spot_percentage_long_initial: u64,
    pub option_spot_percentage_short_initial: u64,
    pub option_dynamic_percentage_short_initial: u64,
    pub option_mark_percentage_long_maintenance: u64,
    pub option_spot_percentage_long_maintenance: u64,
    pub option_spot_percentage_short_maintenance: u64,
    pub option_dynamic_percentage_short_maintenance: u64,
    pub option_short_put_cap_percentage: u64,
}

impl MarginParameters {
    pub open spec fn initial_spec(self) -> TierPercentages {
        TierPercentages {
            future: self.future_margin_initial,
            spot_long: self.option_spot_percentage_long_initial,
            mark_long: self.option_mark_percentage_long_initial,
            spot_short: self.option_spot_percentage_short_initial,
            dynamic_short: self.option_dynamic_percentage_short_initial,
            put_cap: self.option_short_put_cap_percentage,
        }
    }

    pub open spec fn maintenance_spec(self) -> TierPercentages {
        TierPercentages {
            future: self.future_margin_maintenance,
            spot_long: self.option_spot_percentage_long_maintenance,
            mark_long: self.option_mark_percentage_long_maintenance,
            spot_short: self.option_spot_percentage_short_maintenance,
            dynamic_short: self.option_dynamic_percentage_short_maintenance,
            put_cap: self.option_short_put_cap_percentage,
        }
    }

    /// The percentages that govern initial margin.
    pub fn initial(&self) -> (t: TierPercentages)
        ensures
            t == self.initial_spec(),
    {
        TierPercentages {
            future: self.future_margin_initial,
            spot_long: self.option_spot_percentage_long_initial,
            mark_long: self.option_mark_percentage_long_initial,
            spot_short: self.option_spot_percentage_short_initial,
            dynamic_short: self.option_dynamic_percentage_short_initial,
            put_cap: self.option_short_put_cap_percentage,
        }
    }

    /// The percentages that govern maintenance margin.
    pub fn maintenance(&self) -> (t: TierPercentages)
        ensures
            t == self.maintenance_spec(),
    {
        TierPercentages {
            future: self.future_margin_maintenance,
            spot_long: self.option_spot_percentage_long_maintenance,
            mark_long: self.option_mark_percentage_long_maintenance,
            spot_short: self.option_spot_percentage_short_maintenance,
            dynamic_short: self.option_dynamic_percentage_short_maintenance,
            put_cap: self.option_short_put_cap_percentage,
        }
    }
}

/// Index of a product in the flat market table, given its expiry series and
/// its place inside that series.
pub fn get_products_slice_market_index(expiry_index: usize, product_index: usize) -> (r: usize)
    requires
        expiry_index * NUM_PRODUCTS_PER_SERIES + product_index <= usize::MAX,
    ensures
        r == expiry_index * NUM_PRODUCTS_PER_SERIES + product_index,
{
    expiry_index * NUM_PRODUCTS_PER_SERIES + product_index
}

} // verus!
