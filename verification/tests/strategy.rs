use deepstate_mm::binary64::Binary64;
use deepstate_mm::order::Order;
use deepstate_mm::strategy::{
    apply_balance_limit, compute_quotes, describe_order, quotes_fit, MmConfig, Quotes, TargetTicks,
};

fn order(tick: i32) -> Order {
    Order { tick, quantity: 99, nonce: 5 }
}

fn ticks(quotes: &Quotes) -> (i32, i32) {
    (quotes.bid.unwrap().tick, quotes.ask.unwrap().tick)
}

#[test]
fn default_config_has_the_documented_values() {
    let cfg = MmConfig::default();
    assert_eq!(f64::from_bits(cfg.mid_price.bits), 125.0);
    assert_eq!(f64::from_bits(cfg.half_spread_pct.bits), 0.005);
    assert_eq!(cfg.bid_quantity, 1_000_000);
    assert_eq!(cfg.ask_quantity, 1_000_000_000_000_000_000);
    assert_eq!(cfg.min_tick_gap, 1);
    assert_eq!((cfg.decimals0, cfg.decimals1), (6, 18));
    assert_eq!(cfg.interval_secs, 30);
    assert_eq!(cfg.max_nvda_inventory, 2_000_000_000_000_000_000);
}

#[test]
fn empty_book_is_quoted_at_the_targets() {
    let cfg = MmConfig::default();
    let target = TargetTicks { bid: -1000, ask: 1000 };
    let quotes = compute_quotes(&cfg, &target, None, None).unwrap();
    assert_eq!(quotes.bid.unwrap(), Order { tick: -1000, quantity: cfg.bid_quantity, nonce: 0 });
    assert_eq!(quotes.ask.unwrap(), Order { tick: 1000, quantity: cfg.ask_quantity, nonce: 0 });
}

#[test]
fn better_book_is_improved_by_one_tick() {
    let cfg = MmConfig::default();
    let target = TargetTicks { bid: -1000, ask: 1000 };
    let quotes = compute_quotes(&cfg, &target, Some(&order(-10)), Some(&order(20))).unwrap();
    assert_eq!(ticks(&quotes), (-9, 19));
}

#[test]
fn worse_or_equal_book_is_left_alone() {
    let cfg = MmConfig::default();
    let target = TargetTicks { bid: -1000, ask: 1000 };
    let quotes = compute_quotes(&cfg, &target, Some(&order(-1000)), Some(&order(1000))).unwrap();
    assert_eq!(ticks(&quotes), (-1000, 1000));
    let quotes = compute_quotes(&cfg, &target, Some(&order(-5000)), Some(&order(5000))).unwrap();
    assert_eq!(ticks(&quotes), (-1000, 1000));
}

#[test]
fn bid_gives_way_to_the_gap() {
    let mut cfg = MmConfig::default();
    let target = TargetTicks { bid: -1000, ask: 1000 };
    let quotes = compute_quotes(&cfg, &target, Some(&order(7)), Some(&order(8))).unwrap();
    assert_eq!(ticks(&quotes), (6, 7));
    cfg.min_tick_gap = 50;
    let quotes = compute_quotes(&cfg, &target, Some(&order(7)), Some(&order(8))).unwrap();
    assert_eq!(ticks(&quotes), (-43, 7));
}

#[test]
fn quotes_beyond_the_tick_range_do_not_fit() {
    let cfg = MmConfig::default();
    let near = TargetTicks { bid: -1000, ask: 1000 };
    assert!(quotes_fit(&cfg, &near, None, None));
    assert!(!quotes_fit(&cfg, &near, Some(&order(i32::MAX)), None));
    assert!(!quotes_fit(&cfg, &near, None, Some(&order(i32::MIN))));
    assert!(quotes_fit(&cfg, &near, Some(&order(i32::MAX - 1)), None));
    let far = TargetTicks { bid: -2_000_000_000, ask: 2_000_000_000 };
    assert!(!quotes_fit(&cfg, &far, None, None));
    let low = TargetTicks { bid: i32::MIN, ask: i32::MIN };
    assert!(!quotes_fit(&cfg, &low, None, None));
}

#[test]
fn balances_limit_both_quotes() {
    let wanted = Quotes {
        bid: Some(Order { tick: 1, quantity: 100, nonce: 0 }),
        ask: Some(Order { tick: 2, quantity: 200, nonce: 0 }),
    };
    let mut quotes = wanted;
    apply_balance_limit(&mut quotes, 1000, 1000, 2000);
    assert_eq!(quotes.bid, wanted.bid);
    assert_eq!(quotes.ask, wanted.ask);
    apply_balance_limit(&mut quotes, 30, 40, 2000);
    assert_eq!(quotes.bid.unwrap(), Order { tick: 1, quantity: 30, nonce: 0 });
    assert_eq!(quotes.ask.unwrap(), Order { tick: 2, quantity: 40, nonce: 0 });
    let mut quotes = wanted;
    apply_balance_limit(&mut quotes, 0, 0, 2000);
    assert_eq!(quotes.bid.unwrap().quantity, 0);
    assert_eq!(quotes.ask.unwrap().quantity, 0);
}

#[test]
fn full_inventory_switches_the_bid_off() {
    let mut quotes = Quotes { bid: Some(order(1)), ask: Some(order(2)) };
    apply_balance_limit(&mut quotes, 1000, 2000, 2000);
    assert_eq!(quotes.bid, None);
    assert_eq!(quotes.ask, Some(order(2)));
}

#[test]
fn order_is_described_in_words() {
    let o = Order { tick: -735_900_000, quantity: 1_000_000, nonce: 7 };
    assert_eq!(describe_order(&o, "124.3750"), "px=$124.3750 qty=1000000 nonce=7");
}

#[test]
fn real_numbers_are_judged_by_their_bits() {
    let positive = [5e-324, 1e-300, 0.005, 0.5, 0.999_999_999_999_999_9, 1.0, 125.0, f64::MAX];
    let others = [0.0, -0.0, -1.0, -0.5, f64::INFINITY, f64::NEG_INFINITY, f64::NAN, -f64::NAN];
    for x in positive.into_iter().chain(others) {
        let number = Binary64 { bits: x.to_bits() };
        assert_eq!(number.is_positive(), x.is_finite() && x > 0.0, "{x}");
        assert_eq!(number.is_proper_fraction(), x > 0.0 && x < 1.0, "{x}");
    }
}
