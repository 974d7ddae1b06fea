//! Margin engine: required collateral per lot for futures and options.
use vstd::prelude::*;
use vstd::arithmetic::div_mod::{lemma_div_is_ordered, lemma_div_pos_is_pos};

use crate::error::FuzeErrorCode;
use crate::fixed_point::{mul_div, narrow_to_u64};
use crate::types::{is_option, Kind, MarginParameters, Side, TierPercentages, NATIVE_PRECISION_DENOMINATOR};

verus! {

pub open spec fn denom() -> int {
    NATIVE_PRECISION_DENOMINATOR as int
}

/// How far an option is out of the money: the distance between spot and
/// strike in the direction that lowers its intrinsic value, floored at zero.
pub open spec fn otm_spec(spot: int, strike: int, kind: Kind) -> int {
    match kind {
        Kind::Call => if strike > spot { strike - spot } else { 0 },
        Kind::Put => if spot > strike { spot - strike } else { 0 },
        _ => 0,
    }
}

/// `amount` scaled by a fixed-point percentage, truncated.
pub open spec fn leg(amount: int, pct: int) -> int {
    amount * pct / denom()
}

pub open spec fn min_int(a: int, b: int) -> int {
    if a <= b { a } else { b }
}

pub open spec fn max_int(a: int, b: int) -> int {
    if a >= b { a } else { b }
}

/// Out-of-the-money distance as a fixed-point fraction of spot.
pub open spec fn otm_pct_spec(spot: int, strike: int, kind: Kind) -> int {
    otm_spec(spot, strike, kind) * denom() / spot
}

/// Short option margin before the put cap: the dynamic percentage shrinks as
/// the option moves out of the money, and never goes below the static floor.
pub open spec fn short_margin(spot: int, otm_pct: int, dynamic: int, floor: int) -> int {
    let dynamic_pct = if dynamic >= otm_pct { dynamic - otm_pct } else { 0 };
    max_int(dynamic_pct, floor) * spot / denom()
}

/// The margin per lot as an unbounded integer, for the kinds that have one.
pub open spec fn margin_spec(spot: int, strike: int, mark: int, kind: Kind, long: bool, t: TierPercentages) -> int {
    if kind is Future {
        leg(spot, t.future as int)
    } else if long {
        min_int(leg(spot, t.spot_long as int), leg(mark, t.mark_long as int))
    } else {
        let m = short_margin(spot, otm_pct_spec(spot, strike, kind), t.dynamic_short as int, t.spot_short as int);
        if kind is Put { min_int(m, leg(strike, t.put_cap as int)) } else { m }
    }
}

/// What a margin computation returns: an error for a kind without a formula,
/// for a short option at spot zero (division by zero), and for a margin that
/// does not fit in 64 bits.
pub open spec fn margin_result(spot: u64, strike: u64, mark: u64, kind: Kind, long: bool, t: TierPercentages) -> Result<u64, FuzeErrorCode> {
    if !(kind is Future || is_option(kind)) {
        Err(FuzeErrorCode::UnsupportedKind)
    } else if is_option(kind) && !long && spot == 0 {
        Err(FuzeErrorCode::ArithmeticOverflow)
    } else if margin_spec(spot as int, strike as int, mark as int, kind, long, t) > u64::MAX {
        Err(FuzeErrorCode::ArithmeticOverflow)
    } else {
        Ok(margin_spec(spot as int, strike as int, mark as int, kind, long, t) as u64)
    }
}

pub open spec fn initial_margin_result(spot: u64, strike: u64, mark: u64, kind: Kind, side: Side, p: MarginParameters) -> Result<u64, FuzeErrorCode> {
    if is_option(kind) && side is Uninitialized {
        Err(FuzeErrorCode::InvalidInvariantState)
    } else {
        margin_result(spot, strike, mark, kind, side is Bid, p.initial_spec())
    }
}

/// How far an option is out of the money; only calls and puts have one.
pub fn get_otm_amount(spot: u64, strike: u64, product: Kind) -> (r: Result<u64, FuzeErrorCode>)
    ensures
        is_option(product) ==> r == Ok::<u64, FuzeErrorCode>(otm_spec(spot as int, strike as int, product) as u64),
        !is_option(product) ==> r == Err::<u64, FuzeErrorCode>(FuzeErrorCode::UnsupportedKind),
{
    match product {
        Kind::Call => Ok(if strike > spot { strike - spot } else { 0 }),
        Kind::Put => Ok(if spot > strike { spot - strike } else { 0 }),
        _ => Err(FuzeErrorCode::UnsupportedKind),
    }
}

/// Margin per lot under one tier of percentages; `long` picks the option side.
pub fn margin_per_lot(spot: u64, strike: u64, mark: u64, kind: Kind, long: bool, t: &TierPercentages) -> (r: Result<u64, FuzeErrorCode>)
    ensures
        r == margin_result(spot, strike, mark, kind, long, *t),
{
    let margin: u128 = match kind {
        Kind::Future => mul_div(spot, t.future, NATIVE_PRECISION_DENOMINATOR),
        Kind::Call | Kind::Put => {
            if long {
                let spot_leg = mul_div(spot, t.spot_long, NATIVE_PRECISION_DENOMINATOR);
                let mark_leg = mul_div(mark, t.mark_long, NATIVE_PRECISION_DENOMINATOR);
                if spot_leg <= mark_leg { spot_leg } else { mark_leg }
            } else {
                if spot == 0 {
                    return Err(FuzeErrorCode::ArithmeticOverflow);
                }
                let otm_amount = get_otm_amount(spot, strike, kind)?;
                let otm_pct = mul_div(otm_amount, NATIVE_PRECISION_DENOMINATOR, spot);
                let dynamic_pct: u64 = if (t.dynamic_short as u128) >= otm_pct {
                    (t.dynamic_short as u128 - otm_pct) as u64
                } else {
                    0
                };
                let margin_pct: u64 = if dynamic_pct >= t.spot_short { dynamic_pct } else { t.spot_short };
                let short = mul_div(margin_pct, spot, NATIVE_PRECISION_DENOMINATOR);
                proof {
                    assert((margin_pct as int) * (spot as int) == (spot as int) * (margin_pct as int)) by (nonlinear_arith);
                }
                if kind == Kind::Put {
                    let cap = mul_div(strike, t.put_cap, NATIVE_PRECISION_DENOMINATOR);
                    if short <= cap { short } else { cap }
                } else {
                    short
                }
            }
        },
        Kind::Uninitialized => {
            return Err(FuzeErrorCode::UnsupportedKind);
        },
    };
    match narrow_to_u64(margin) {
        Some(m) => Ok(m),
        None => Err(FuzeErrorCode::ArithmeticOverflow),
    }
}

/// Initial margin per lot. `side` says whether an option position is long
/// or short; it must be set for options.
pub fn get_initial_margin_per_lot(
    spot: u64,
    strike: u64,
    mark: u64,
    product: Kind,
    side: Side,
    margin_parameters: &MarginParameters,
) -> (r: Result<u64, FuzeErrorCode>)
    ensures
        r == initial_margin_result(spot, strike, mark, product, side, *margin_parameters),
{
    let long = match side {
        Side::Bid => true,
        Side::Ask => false,
        Side::Uninitialized => {
            if product == Kind::Call || product == Kind::Put {
                return Err(FuzeErrorCode::InvalidInvariantState);
            }
            false
        },
    };
    margin_per_lot(spot, strike, mark, product, long, &margin_parameters.initial())
}

/// Maintenance margin per lot; `long` says whether an option position is
/// long or short.
pub fn get_maintenance_margin_per_lot(
    spot: u64,
    strike: u64,
    mark: u64,
    product: Kind,
    long: bool,
    margin_parameters: &MarginParameters,
) -> (r: Result<u64, FuzeErrorCode>)
    ensures
        r == margin_result(spot, strike, mark, product, long, margin_parameters.maintenance_spec()),
{
    margin_per_lot(spot, strike, mark, product, long, &margin_parameters.maintenance())
}

/// A product of two non-negative factors, truncated by a positive divisor,
/// grows with each factor.
proof fn lemma_scaled_monotone(a1: int, a2: int, b1: int, b2: int, d: int)
    requires
        0 <= a1 <= a2,
        0 <= b1 <= b2,
        d > 0,
    ensures
        0 <= a1 * b1 / d <= a2 * b2 / d,
{
    assert(0 <= a1 * b1 <= a2 * b2) by (nonlinear_arith)
        requires
            0 <= a1 <= a2,
            0 <= b1 <= b2,
    ;
    lemma_div_pos_is_pos(a1 * b1, d);
    lemma_div_is_ordered(a1 * b1, a2 * b2, d);
}

/// The out-of-the-money distance is the clamped difference of strike and
/// spot; a call's grows with its strike and shrinks as spot rises, a put's
/// the other way round.
pub proof fn otm_amount_formula_and_monotone(spot1: u64, spot2: u64, strike1: u64, strike2: u64)
    ensures
        otm_spec(spot1 as int, strike1 as int, Kind::Call) == max_int(strike1 - spot1, 0),
        otm_spec(spot1 as int, strike1 as int, Kind::Put) == max_int(spot1 - strike1, 0),
        spot1 >= spot2 && strike1 <= strike2
            ==> otm_spec(spot1 as int, strike1 as int, Kind::Call) <= otm_spec(spot2 as int, strike2 as int, Kind::Call),
        spot1 <= spot2 && strike1 >= strike2
            ==> otm_spec(spot1 as int, strike1 as int, Kind::Put) <= otm_spec(spot2 as int, strike2 as int, Kind::Put),
{
}

/// Long option margin is the smaller of the spot leg and the mark leg.
pub proof fn long_option_margin_is_min_of_legs(spot: u64, strike: u64, mark: u64, kind: Kind, p: MarginParameters)
    requires
        is_option(kind),
    ensures
        margin_spec(spot as int, strike as int, mark as int, kind, true, p.initial_spec()) == min_int(
            leg(spot as int, p.option_spot_percentage_long_initial as int),
            leg(mark as int, p.option_mark_percentage_long_initial as int),
        ),
        margin_spec(spot as int, strike as int, mark as int, kind, true, p.maintenance_spec()) == min_int(
            leg(spot as int, p.option_spot_percentage_long_maintenance as int),
            leg(mark as int, p.option_mark_percentage_long_maintenance as int),
        ),
        min_int(
            leg(spot as int, p.option_spot_percentage_long_initial as int),
            leg(mark as int, p.option_mark_percentage_long_initial as int),
        ) <= u64::MAX ==> initial_margin_result(spot, strike, mark, kind, Side::Bid, p) == Ok::<u64, FuzeErrorCode>(
            min_int(
                leg(spot as int, p.option_spot_percentage_long_initial as int),
                leg(mark as int, p.option_mark_percentage_long_initial as int),
            ) as u64,
        ),
{
}

/// A short put never needs more than the capped share of its strike,
/// whatever its distance out of the money.
pub proof fn short_put_margin_within_cap(spot: u64, strike: u64, mark: u64, p: MarginParameters)
    ensures
        margin_spec(spot as int, strike as int, mark as int, Kind::Put, false, p.initial_spec())
            <= leg(strike as int, p.option_short_put_cap_percentage as int),
        margin_spec(spot as int, strike as int, mark as int, Kind::Put, false, p.maintenance_spec())
            <= leg(strike as int, p.option_short_put_cap_percentage as int),
        initial_margin_result(spot, strike, mark, Kind::Put, Side::Ask, p) is Ok
            ==> initial_margin_result(spot, strike, mark, Kind::Put, Side::Ask, p)->Ok_0
            <= leg(strike as int, p.option_short_put_cap_percentage as int),
        margin_result(spot, strike, mark, Kind::Put, false, p.maintenance_spec()) is Ok
            ==> margin_result(spot, strike, mark, Kind::Put, false, p.maintenance_spec())->Ok_0
            <= leg(strike as int, p.option_short_put_cap_percentage as int),
{
}

/// Short margin before the cap never grows as the option moves further out
/// of the money, and once the distance reaches the dynamic percentage it
/// sits on the static floor.
pub proof fn short_margin_non_increasing(spot: u64, otm_pct1: int, otm_pct2: int, dynamic: u64, floor: u64)
    requires
        0 <= otm_pct1 <= otm_pct2,
    ensures
        short_margin(spot as int, otm_pct2, dynamic as int, floor as int)
            <= short_margin(spot as int, otm_pct1, dynamic as int, floor as int),
        otm_pct1 >= dynamic ==> short_margin(spot as int, otm_pct1, dynamic as int, floor as int)
            == leg(spot as int, floor as int),
{
    let d1 = if dynamic >= otm_pct1 { dynamic - otm_pct1 } else { 0 };
    let d2 = if dynamic >= otm_pct2 { dynamic - otm_pct2 } else { 0 };
    lemma_scaled_monotone(max_int(d2, floor as int), max_int(d1, floor as int), spot as int, spot as int, denom());
    assert(max_int(0, floor as int) * spot == spot * floor) by (nonlinear_arith)
        requires
            max_int(0, floor as int) == floor,
    ;
}

/// For a fixed spot, a short option's margin never grows as its strike moves
/// out of the money: upward for a call, downward for a put.
pub proof fn short_option_margin_non_increasing_in_strike(
    spot: u64,
    strike1: u64,
    strike2: u64,
    mark: u64,
    kind: Kind,
    t: TierPercentages,
)
    requires
        spot > 0,
        kind is Call ==> strike1 <= strike2,
        kind is Put ==> strike2 <= strike1,
        is_option(kind),
    ensures
        margin_spec(spot as int, strike2 as int, mark as int, kind, false, t)
            <= margin_spec(spot as int, strike1 as int, mark as int, kind, false, t),
{
    let o1 = otm_spec(spot as int, strike1 as int, kind);
    let o2 = otm_spec(spot as int, strike2 as int, kind);
    lemma_scaled_monotone(o1, o2, denom(), denom(), spot as int);
    short_margin_non_increasing(
        spot,
        otm_pct_spec(spot as int, strike1 as int, kind),
        otm_pct_spec(spot as int, strike2 as int, kind),
        t.dynamic_short,
        t.spot_short,
    );
    if kind is Put {
        lemma_scaled_monotone(strike2 as int, strike1 as int, t.put_cap as int, t.put_cap as int, denom());
    }
}

/// Every maintenance percentage is at most its initial counterpart.
pub open spec fn maintenance_within_initial(p: MarginParameters) -> bool {
    &&& p.future_margin_maintenance <= p.future_margin_initial
    &&& p.option_spot_percentage_long_maintenance <= p.option_spot_percentage_long_initial
    &&& p.option_mark_percentage_long_maintenance <= p.option_mark_percentage_long_initial
    &&& p.option_spot_percentage_short_maintenance <= p.option_spot_percentage_short_initial
    &&& p.option_dynamic_percentage_short_maintenance <= p.option_dynamic_percentage_short_initial
}

proof fn lemma_margin_monotone_in_tier(
    spot: u64,
    strike: u64,
    mark: u64,
    kind: Kind,
    long: bool,
    a: TierPercentages,
    b: TierPercentages,
)
    requires
        a.future <= b.future,
        a.spot_long <= b.spot_long,
        a.mark_long <= b.mark_long,
        a.spot_short <= b.spot_short,
        a.dynamic_short <= b.dynamic_short,
        a.put_cap == b.put_cap,
        kind is Future || is_option(kind),
        is_option(kind) && !long ==> spot > 0,
    ensures
        0 <= margin_spec(spot as int, strike as int, mark as int, kind, long, a)
            <= margin_spec(spot as int, strike as int, mark as int, kind, long, b),
{
    let (s, k, m) = (spot as int, strike as int, mark as int);
    lemma_scaled_monotone(s, s, a.future as int, b.future as int, denom());
    lemma_scaled_monotone(s, s, a.spot_long as int, b.spot_long as int, denom());
    lemma_scaled_monotone(m, m, a.mark_long as int, b.mark_long as int, denom());
    lemma_scaled_monotone(k, k, a.put_cap as int, b.put_cap as int, denom());
    if is_option(kind) && !long {
        let o = otm_spec(s, k, kind);
        lemma_scaled_monotone(o, o, denom(), denom(), s);
        let pct = otm_pct_spec(s, k, kind);
        let da = if a.dynamic_short >= pct { a.dynamic_short - pct } else { 0 };
        let db = if b.dynamic_short >= pct { b.dynamic_short - pct } else { 0 };
        lemma_scaled_monotone(max_int(da, a.spot_short as int), max_int(db, b.spot_short as int), s, s, denom());
    }
}

/// Where each maintenance percentage is at most the initial one, maintenance
/// margin is at most initial margin for the same position, and is available
/// whenever initial margin is.
pub proof fn maintenance_margin_at_most_initial(
    spot: u64,
    strike: u64,
    mark: u64,
    kind: Kind,
    side: Side,
    p: MarginParameters,
)
    requires
        maintenance_within_initial(p),
        !(side is Uninitialized),
    ensures
        (kind is Future || is_option(kind)) && (is_option(kind) && side is Ask ==> spot > 0) ==> margin_spec(
            spot as int,
            strike as int,
            mark as int,
            kind,
            side is Bid,
            p.maintenance_spec(),
        ) <= margin_spec(spot as int, strike as int, mark as int, kind, side is Bid, p.initial_spec()),
        initial_margin_result(spot, strike, mark, kind, side, p) is Ok ==> {
            &&& margin_result(spot, strike, mark, kind, side is Bid, p.maintenance_spec()) is Ok
            &&& margin_result(spot, strike, mark, kind, side is Bid, p.maintenance_spec())->Ok_0
                <= initial_margin_result(spot, strike, mark, kind, side, p)->Ok_0
        },
{
    if (kind is Future || is_option(kind)) && (is_option(kind) && side is Ask ==> spot > 0) {
        lemma_margin_monotone_in_tier(spot, strike, mark, kind, side is Bid, p.maintenance_spec(), p.initial_spec());
    }
}

} // verus!
