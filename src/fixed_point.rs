//! Checked fixed-point helpers: products are taken in 128 bits, then
//! narrowed back with an explicit range check.
use vstd::prelude::*;

verus! {

/// `a * b / d`, with the product taken in 128 bits so that it cannot overflow.
pub fn mul_div(a: u64, b: u64, d: u64) -> (r: u128)
    requires
        d > 0,
    ensures
        r as int == (a as int) * (b as int) / (d as int),
        r <= u64::MAX * u64::MAX,
{
    proof {
        assert((a as int) * (b as int) <= u64::MAX * u64::MAX) by (nonlinear_arith)
            requires
                a <= u64::MAX,
                b <= u64::MAX,
                0 <= a,
                0 <= b,
        ;
        assert((a as int) * (b as int) / (d as int) <= (a as int) * (b as int)) by (nonlinear_arith)
            requires
                d >= 1,
                (a as int) * (b as int) >= 0,
        ;
    }
    let p: u128 = (a as u128) * (b as u128);
    p / (d as u128)
}

/// Relies on num_traits::ToPrimitive::to_u64 for `u128`: `Some` exactly when
/// the value fits in 64 bits, holding the same value.
#[verifier::external_body]
pub(crate) fn narrow_to_u64(x: u128) -> (r: Option<u64>)
    ensures
        x <= u64::MAX ==> r == Some(x as u64),
        x > u64::MAX ==> r is None,
{
    num_traits::ToPrimitive::to_u64(&x)
}

/// Relies on num_traits::ToPrimitive::to_i128 for `u128`: `Some` exactly when
/// the value fits in a signed 128-bit integer, holding the same value.
#[verifier::external_body]
pub(crate) fn narrow_to_i128(x: u128) -> (r: Option<i128>)
    ensures
        x <= i128::MAX ==> r == Some(x as i128),
        x > i128::MAX ==> r is None,
{
    num_traits::ToPrimitive::to_i128(&x)
}

} // verus!
