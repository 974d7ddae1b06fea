use vault_zeta::{
    get_initial_margin_per_lot, get_maintenance_margin_per_lot, get_otm_amount,
    get_products_slice_market_index, margin_per_lot, FuzeErrorCode, Kind, MarginParameters, Side,
    TierPercentages,
};

fn params() -> MarginParameters {
    MarginParameters {
        future_margin_initial: 150_000,
        future_margin_maintenance: 75_000,
        option_mark_percentage_long_initial: 1_000_000,
        option_spot_percentage_long_initial: 150_000,
        option_spot_percentage_short_initial: 100_000,
        option_dynamic_percentage_short_initial: 500_000,
        option_mark_percentage_long_maintenance: 1_000_000,
        option_spot_percentage_long_maintenance: 75_000,
        option_spot_percentage_short_maintenance: 50_000,
        option_dynamic_percentage_short_maintenance: 250_000,
        option_short_put_cap_percentage: 200_000,
    }
}

#[test]
fn otm_amount_of_calls_and_puts() {
    assert_eq!(get_otm_amount(100, 130, Kind::Call), Ok(30));
    assert_eq!(get_otm_amount(130, 100, Kind::Call), Ok(0));
    assert_eq!(get_otm_amount(130, 100, Kind::Put), Ok(30));
    assert_eq!(get_otm_amount(100, 130, Kind::Put), Ok(0));
    assert_eq!(get_otm_amount(100, 100, Kind::Put), Ok(0));
    assert_eq!(get_otm_amount(0, u64::MAX, Kind::Call), Ok(u64::MAX));
}

#[test]
fn otm_amount_is_monotonic() {
    let a = get_otm_amount(100, 120, Kind::Call).unwrap();
    let b = get_otm_amount(100, 140, Kind::Call).unwrap();
    let c = get_otm_amount(90, 140, Kind::Call).unwrap();
    assert!(a <= b && b <= c);
    let d = get_otm_amount(120, 100, Kind::Put).unwrap();
    let e = get_otm_amount(140, 100, Kind::Put).unwrap();
    let f = get_otm_amount(140, 90, Kind::Put).unwrap();
    assert!(d <= e && e <= f);
}

#[test]
fn otm_amount_rejects_other_kinds() {
    assert_eq!(get_otm_amount(1, 2, Kind::Future), Err(FuzeErrorCode::UnsupportedKind));
    assert_eq!(get_otm_amount(1, 2, Kind::Uninitialized), Err(FuzeErrorCode::UnsupportedKind));
}

#[test]
fn future_margin_is_share_of_spot() {
    let p = params();
    assert_eq!(get_initial_margin_per_lot(2_000_000, 0, 0, Kind::Future, Side::Bid, &p), Ok(300_000));
    assert_eq!(get_maintenance_margin_per_lot(2_000_000, 0, 0, Kind::Future, true, &p), Ok(150_000));
    assert_eq!(
        get_initial_margin_per_lot(2_000_000, 0, 0, Kind::Future, Side::Uninitialized, &p),
        Ok(300_000)
    );
}

#[test]
fn long_option_margin_takes_smaller_leg() {
    let p = params();
    // spot leg 15_000_000 dominates a mark leg of 12_000_000
    assert_eq!(
        get_initial_margin_per_lot(100_000_000, 90_000_000, 12_000_000, Kind::Call, Side::Bid, &p),
        Ok(12_000_000)
    );
    // mark leg 20_000_000 dominates a spot leg of 15_000_000
    assert_eq!(
        get_initial_margin_per_lot(100_000_000, 90_000_000, 20_000_000, Kind::Put, Side::Bid, &p),
        Ok(15_000_000)
    );
    assert_eq!(
        get_maintenance_margin_per_lot(100_000_000, 90_000_000, 5_000_000, Kind::Call, true, &p),
        Ok(5_000_000)
    );
}

#[test]
fn short_put_scenario_is_capped_by_strike() {
    let mut p = params();
    p.option_dynamic_percentage_short_initial = 500_000;
    p.option_spot_percentage_short_initial = 100_000;
    p.option_short_put_cap_percentage = 200_000;
    assert_eq!(
        get_initial_margin_per_lot(100_000_000, 90_000_000, 12_000_000, Kind::Put, Side::Ask, &p),
        Ok(18_000_000)
    );
}

#[test]
fn short_call_margin_follows_dynamic_percentage() {
    let p = params();
    // at the money: 50% of spot
    assert_eq!(
        get_initial_margin_per_lot(100_000_000, 100_000_000, 0, Kind::Call, Side::Ask, &p),
        Ok(50_000_000)
    );
    // 10% out of the money: 40% of spot
    assert_eq!(
        get_initial_margin_per_lot(100_000_000, 110_000_000, 0, Kind::Call, Side::Ask, &p),
        Ok(40_000_000)
    );
    // far out of the money: the 10% floor
    assert_eq!(
        get_initial_margin_per_lot(100_000_000, 200_000_000, 0, Kind::Call, Side::Ask, &p),
        Ok(10_000_000)
    );
    assert_eq!(
        get_maintenance_margin_per_lot(100_000_000, 110_000_000, 0, Kind::Call, false, &p),
        Ok(15_000_000)
    );
}

#[test]
fn short_margin_non_increasing_out_of_the_money() {
    let p = params();
    let mut last = u64::MAX;
    for strike in [100u64, 120, 140, 160, 200, 400] {
        let m = get_initial_margin_per_lot(100_000_000, strike * 1_000_000, 0, Kind::Call, Side::Ask, &p)
            .unwrap();
        assert!(m <= last);
        last = m;
    }
    assert_eq!(last, 10_000_000);
    let mut last = u64::MAX;
    for strike in [100u64, 90, 70, 50, 20, 1] {
        let m = get_maintenance_margin_per_lot(100_000_000, strike * 1_000_000, 0, Kind::Put, false, &p)
            .unwrap();
        assert!(m <= last);
        last = m;
    }
}

#[test]
fn short_put_never_exceeds_cap() {
    let p = params();
    for strike in [1_000_000u64, 50_000_000, 90_000_000, 100_000_000, 300_000_000] {
        let cap = strike / 1_000_000 * 200_000;
        let i = get_initial_margin_per_lot(100_000_000, strike, 0, Kind::Put, Side::Ask, &p).unwrap();
        let m = get_maintenance_margin_per_lot(100_000_000, strike, 0, Kind::Put, false, &p).unwrap();
        assert!(i <= cap && m <= cap);
    }
}

#[test]
fn maintenance_at_most_initial() {
    let p = params();
    for (kind, side) in [
        (Kind::Future, Side::Bid),
        (Kind::Call, Side::Bid),
        (Kind::Call, Side::Ask),
        (Kind::Put, Side::Bid),
        (Kind::Put, Side::Ask),
    ] {
        for strike in [50_000_000u64, 100_000_000, 150_000_000] {
            let i = get_initial_margin_per_lot(100_000_000, strike, 7_000_000, kind, side, &p).unwrap();
            let m = get_maintenance_margin_per_lot(100_000_000, strike, 7_000_000, kind, side == Side::Bid, &p)
                .unwrap();
            assert!(m <= i);
        }
    }
}

#[test]
fn margin_errors() {
    let p = params();
    assert_eq!(
        get_initial_margin_per_lot(1, 1, 1, Kind::Uninitialized, Side::Bid, &p),
        Err(FuzeErrorCode::UnsupportedKind)
    );
    assert_eq!(
        get_maintenance_margin_per_lot(1, 1, 1, Kind::Uninitialized, false, &p),
        Err(FuzeErrorCode::UnsupportedKind)
    );
    assert_eq!(
        get_initial_margin_per_lot(1, 1, 1, Kind::Call, Side::Uninitialized, &p),
        Err(FuzeErrorCode::InvalidInvariantState)
    );
    assert_eq!(
        get_initial_margin_per_lot(0, 1, 1, Kind::Put, Side::Ask, &p),
        Err(FuzeErrorCode::ArithmeticOverflow)
    );
    assert_eq!(
        get_maintenance_margin_per_lot(0, 1, 1, Kind::Call, false, &p),
        Err(FuzeErrorCode::ArithmeticOverflow)
    );
}

#[test]
fn margin_that_does_not_fit_is_an_overflow() {
    let t = TierPercentages {
        future: 2_000_000,
        spot_long: 0,
        mark_long: 0,
        spot_short: 0,
        dynamic_short: 0,
        put_cap: 0,
    };
    assert_eq!(margin_per_lot(u64::MAX, 0, 0, Kind::Future, true, &t), Err(FuzeErrorCode::ArithmeticOverflow));
    assert_eq!(margin_per_lot(u64::MAX / 2, 0, 0, Kind::Future, true, &t), Ok(u64::MAX - 1));
}

#[test]
fn tiers_pick_their_fields() {
    let p = params();
    assert_eq!(p.initial().dynamic_short, 500_000);
    assert_eq!(p.maintenance().dynamic_short, 250_000);
    assert_eq!(p.maintenance().put_cap, 200_000);
    assert_eq!(p.initial().future, 150_000);
}

#[test]
fn market_index_of_series() {
    assert_eq!(get_products_slice_market_index(0, 5), 5);
    assert_eq!(get_products_slice_market_index(2, 22), 68);
}

#[test]
fn error_messages() {
    assert_eq!(FuzeErrorCode::UnsupportedKind.message(), "Unsupported kind");
    assert_eq!(FuzeErrorCode::InvalidOptionKind.message(), "Invalid option kind, must be Call or Put");
}
