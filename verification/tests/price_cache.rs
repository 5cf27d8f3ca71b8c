use fees::price_cache::{
    FeeBasis, PriceContainer, AR_FETCH_INTERVAL_SECONDS, FALLBACK_BASE_PRICE_IN_WINSTON,
    FALLBACK_BASE_USD_FEE_BITS, FALLBACK_PRICE_BITS, WINSTON_PER_AR, WVM_USD_PRICE_BITS,
};

#[test]
fn fallback_constants_are_the_documented_pair() {
    assert_eq!(f64::from_bits(FALLBACK_PRICE_BITS), 0.004);
    assert_eq!(FALLBACK_PRICE_BITS, 0.004f64.to_bits());
    assert_eq!(FALLBACK_BASE_PRICE_IN_WINSTON, 185021129);
    assert_eq!(AR_FETCH_INTERVAL_SECONDS, 120);
    assert_eq!(f64::from_bits(FALLBACK_BASE_USD_FEE_BITS), 0.004);
    assert_eq!(f64::from_bits(WVM_USD_PRICE_BITS), 12.5);
    assert_eq!(WINSTON_PER_AR, 1_000_000_000_000);
}

#[test]
fn new_cache_holds_fallback_and_is_not_initialised() {
    let cache = PriceContainer::new();
    assert_eq!(cache.price_bits, 0.004f64.to_bits());
    assert_eq!(cache.base_price_in_winston, 185021129);
    assert!(!cache.init);
    assert_eq!(cache.fee_basis(), FeeBasis::Fallback { usd_fee_bits: 0.004f64.to_bits() });
}

#[test]
fn uninitialised_cache_serves_fallback_whatever_it_holds() {
    let cache = PriceContainer {
        price_bits: 99.0f64.to_bits(),
        base_price_in_winston: 1,
        init: false,
    };
    assert_eq!(cache.fee_basis(), FeeBasis::Fallback { usd_fee_bits: 0.004f64.to_bits() });
}

#[test]
fn one_full_asset_unit_costs_the_asset_price() {
    let mut cache = PriceContainer::new();
    cache.apply(Some(1.0f64.to_bits()), Some(1_000_000_000_000));
    match cache.fee_basis() {
        FeeBasis::Cached { base_fee_in_winston, price_bits } => {
            let usd = (base_fee_in_winston as f64 * f64::from_bits(price_bits))
                / WINSTON_PER_AR as f64;
            assert_eq!(usd, 1.0);
        }
        FeeBasis::Fallback { .. } => panic!("the cache was written"),
    }
}

#[test]
fn price_write_initialises_and_keeps_fee() {
    let mut cache = PriceContainer::new();
    cache.apply(Some(7.25f64.to_bits()), None);
    assert!(cache.init);
    assert_eq!(f64::from_bits(cache.price_bits), 7.25);
    assert_eq!(cache.base_price_in_winston, 185021129);
}

#[test]
fn fee_write_initialises_and_keeps_price() {
    let mut cache = PriceContainer::new();
    cache.apply(None, Some(42));
    assert!(cache.init);
    assert_eq!(cache.base_price_in_winston, 42);
    assert_eq!(cache.price_bits, 0.004f64.to_bits());
}

#[test]
fn pair_write_sets_both() {
    let mut cache = PriceContainer::new();
    cache.apply(Some(1.0f64.to_bits()), Some(1_000_000_000_000));
    let seen = cache.read();
    assert!(seen.init);
    assert_eq!(f64::from_bits(seen.price_bits), 1.0);
    assert_eq!(seen.base_price_in_winston, 1_000_000_000_000);
    assert_eq!(
        cache.fee_basis(),
        FeeBasis::Cached { base_fee_in_winston: 1_000_000_000_000, price_bits: 1.0f64.to_bits() }
    );
}

#[test]
fn failed_refresh_changes_nothing() {
    let mut cache = PriceContainer::new();
    cache.apply(None, None);
    assert!(!cache.init);
    assert_eq!(cache.price_bits, FALLBACK_PRICE_BITS);
    assert_eq!(cache.base_price_in_winston, FALLBACK_BASE_PRICE_IN_WINSTON);

    cache.apply(Some(3.5f64.to_bits()), Some(9));
    cache.apply(None, None);
    assert!(cache.init);
    assert_eq!(f64::from_bits(cache.price_bits), 3.5);
    assert_eq!(cache.base_price_in_winston, 9);
}

#[test]
fn init_never_reverts() {
    let mut cache = PriceContainer::new();
    cache.update(2.0f64.to_bits());
    assert!(cache.init);
    cache.update_base_winston(5);
    assert!(cache.init);
    cache.apply(None, None);
    assert!(cache.init);
    cache.apply(Some(0.5f64.to_bits()), None);
    assert!(cache.init);
}

#[test]
fn single_writes_touch_one_field_each() {
    let mut cache = PriceContainer::new();
    cache.update_base_winston(77);
    assert!(cache.init);
    assert_eq!(cache.base_price_in_winston, 77);
    assert_eq!(cache.price_bits, FALLBACK_PRICE_BITS);
    cache.update(9.0f64.to_bits());
    assert_eq!(cache.base_price_in_winston, 77);
    assert_eq!(f64::from_bits(cache.price_bits), 9.0);
}

#[test]
fn read_is_a_copy() {
    let mut cache = PriceContainer::new();
    let before = cache.read();
    cache.apply(Some(2.0f64.to_bits()), Some(3));
    assert!(!before.init);
    assert_eq!(before.price_bits, FALLBACK_PRICE_BITS);
    assert_eq!(before.base_price_in_winston, FALLBACK_BASE_PRICE_IN_WINSTON);
}

#[test]
fn test_ar_base_fee_usd() {
    let cache = PriceContainer::new();
    let ar_fee = match cache.fee_basis() {
        FeeBasis::Fallback { usd_fee_bits } => f64::from_bits(usd_fee_bits),
        FeeBasis::Cached { base_fee_in_winston, price_bits } => {
            (base_fee_in_winston as f64 * f64::from_bits(price_bits)) / WINSTON_PER_AR as f64
        }
    };
    assert!(ar_fee >= 0.004);
    assert!(ar_fee <= 0.008);
}
