//! Normalisation of a price feed's (mantissa, exponent) pair into an
//! unsigned fixed-point price.
use vstd::prelude::*;

use crate::error::FuzeErrorCode;
use crate::fixed_point::{narrow_to_i128, narrow_to_u64};
use crate::types::PLATFORM_PRECISION;

verus! {

pub open spec fn pow10(n: nat) -> int
    decreases n,
{
    if n == 0 { 1 } else { 10 * pow10((n - 1) as nat) }
}

pub proof fn lemma_pow10_positive(n: nat)
    ensures
        pow10(n) >= 1,
    decreases n,
{
    if n > 0 {
        lemma_pow10_positive((n - 1) as nat);
    }
}

pub proof fn lemma_pow10_monotone(a: nat, b: nat)
    requires
        a <= b,
    ensures
        pow10(a) <= pow10(b),
    decreases b - a,
{
    if a < b {
        lemma_pow10_monotone(a, (b - 1) as nat);
        lemma_pow10_positive((b - 1) as nat);
    }
}

/// `10^n`, or `None` where it does not fit in 128 bits.
pub fn checked_pow10(n: u32) -> (r: Option<u128>)
    ensures
        pow10(n as nat) <= u128::MAX ==> r == Some(pow10(n as nat) as u128),
        pow10(n as nat) > u128::MAX ==> r is None,
{
    let mut acc: u128 = 1;
    let mut i: u32 = 0;
    while i < n
        invariant
            i <= n,
            acc as int == pow10(i as nat),
        decreases n - i,
    {
        if acc > u128::MAX / 10 {
            proof {
                lemma_pow10_monotone((i + 1) as nat, n as nat);
            }
            return None;
        }
        acc = acc * 10;
        i = i + 1;
    }
    Some(acc)
}

/// `mantissa * 10^precision / 10^(-expo)`, as an unbounded integer.
pub open spec fn price_spec(mantissa: int, expo: int, precision: nat) -> int {
    mantissa * pow10(precision) / pow10((-expo) as nat)
}

proof fn lemma_price_bounds(mantissa: i64, expo: i32, precision: u32)
    requires
        price_computable(mantissa, expo, precision),
    ensures
        0 <= price_spec(mantissa as int, expo as int, precision as nat) <= u128::MAX,
{
    let x = mantissa * pow10(precision as nat);
    let d = pow10((-expo) as nat);
    lemma_pow10_positive(precision as nat);
    lemma_pow10_positive((-expo) as nat);
    assert(x >= 0) by (nonlinear_arith)
        requires
            x == mantissa * pow10(precision as nat),
            mantissa >= 0,
            pow10(precision as nat) >= 1,
    ;
    assert(0 <= x / d <= x) by (nonlinear_arith)
        requires
            x >= 0,
            d >= 1,
    ;
}

/// A price can be normalised when it is non-negative and every intermediate
/// value fits in 128 bits.
pub open spec fn price_computable(mantissa: i64, expo: i32, precision: u32) -> bool {
    &&& mantissa >= 0
    &&& pow10(precision as nat) <= u128::MAX
    &&& mantissa * pow10(precision as nat) <= u128::MAX
    &&& pow10((-expo) as nat) <= u128::MAX
}

/// The feed's price `mantissa * 10^expo` at `precision` decimal places,
/// truncated. The exponent of a supported feed is never positive.
pub fn normalize_price(mantissa: i64, expo: i32, precision: u32) -> (r: Result<u128, FuzeErrorCode>)
    requires
        expo <= 0,
    ensures
        price_computable(mantissa, expo, precision) ==> r == Ok::<u128, FuzeErrorCode>(price_spec(mantissa as int, expo as int, precision as nat) as u128),
        !price_computable(mantissa, expo, precision) ==> r == Err::<u128, FuzeErrorCode>(FuzeErrorCode::ArithmeticOverflow),
{
    if mantissa < 0 {
        return Err(FuzeErrorCode::ArithmeticOverflow);
    }
    let scale = match checked_pow10(precision) {
        Some(s) => s,
        None => {
            return Err(FuzeErrorCode::ArithmeticOverflow);
        },
    };
    proof {
        lemma_pow10_positive(precision as nat);
    }
    let m = mantissa as u128;
    let scaled = match m.checked_mul(scale) {
        Some(s) => s,
        None => {
            return Err(FuzeErrorCode::ArithmeticOverflow);
        },
    };
    let neg: i64 = -(expo as i64);
    assert((neg as u32) as nat == (-expo) as nat);
    proof {
        lemma_pow10_positive((-expo) as nat);
    }
    let divisor = match checked_pow10(neg as u32) {
        Some(d) => d,
        None => {
            return Err(FuzeErrorCode::ArithmeticOverflow);
        },
    };
    proof {
        lemma_price_bounds(mantissa, expo, precision);
    }
    Ok(scaled / divisor)
}

/// Price at the platform's native precision.
pub fn get_native_oracle_price(price: i64, expo: i32) -> (r: Result<u64, FuzeErrorCode>)
    requires
        expo <= 0,
    ensures
        price_computable(price, expo, PLATFORM_PRECISION) && price_spec(price as int, expo as int, PLATFORM_PRECISION as nat) <= u64::MAX
            ==> r == Ok::<u64, FuzeErrorCode>(price_spec(price as int, expo as int, PLATFORM_PRECISION as nat) as u64),
        !(price_computable(price, expo, PLATFORM_PRECISION) && price_spec(price as int, expo as int, PLATFORM_PRECISION as nat) <= u64::MAX)
            ==> r == Err::<u64, FuzeErrorCode>(FuzeErrorCode::ArithmeticOverflow),
{
    let p = match normalize_price(price, expo, PLATFORM_PRECISION) {
        Ok(p) => p,
        Err(e) => {
            return Err(e);
        },
    };
    proof {
        lemma_price_bounds(price, expo, PLATFORM_PRECISION);
    }
    match narrow_to_u64(p) {
        Some(v) => Ok(v),
        None => Err(FuzeErrorCode::ArithmeticOverflow),
    }
}

/// Price at `precision` decimal places, as a signed integer.
pub fn get_oracle_price(price: i64, expo: i32, precision: u32) -> (r: Result<i128, FuzeErrorCode>)
    requires
        expo <= 0,
    ensures
        price_computable(price, expo, precision) && price_spec(price as int, expo as int, precision as nat) <= i128::MAX
            ==> r == Ok::<i128, FuzeErrorCode>(price_spec(price as int, expo as int, precision as nat) as i128),
        !(price_computable(price, expo, precision) && price_spec(price as int, expo as int, precision as nat) <= i128::MAX)
            ==> r == Err::<i128, FuzeErrorCode>(FuzeErrorCode::ArithmeticOverflow),
{
    let p = match normalize_price(price, expo, precision) {
        Ok(p) => p,
        Err(e) => {
            return Err(e);
        },
    };
    proof {
        lemma_price_bounds(price, expo, precision);
    }
    match narrow_to_i128(p) {
        Some(v) => Ok(v),
        None => Err(FuzeErrorCode::ArithmeticOverflow),
    }
}

} // verus!
