use organic_trader::random_trader::{
    progressive_scale, RandomTrader, RandomTraderConfig, SwapDirection, SwapInType, TraderError,
};

#[test]
fn pseudo_random_sequence_exact() {
    let mut t = RandomTrader::new("MINT".to_string());
    assert_eq!(t.next_pseudo_random(), 12_345);
    assert_eq!(t.next_pseudo_random(), 1_103_527_590);
    assert_eq!(t.next_pseudo_random(), 59_559_187);
}

#[test]
fn random_in_range_exact_and_banded() {
    let mut t = RandomTrader::new("MINT".to_string());
    // First draw is 12345; 12345 mod 100 = 45.
    assert_eq!(t.random_in_range(0, 100), 45);
    for _ in 0..100 {
        let r = t.random_in_range(10, 20);
        assert!((10..20).contains(&r));
    }
    // An empty range returns its lower end.
    assert_eq!(t.random_in_range(7, 7), 7);
    assert_eq!(t.random_in_range(9, 3), 9);
}

#[test]
fn start_twice_is_refused() {
    let mut t = RandomTrader::new("MINT".to_string());
    assert!(!t.is_running());
    assert_eq!(t.start(), Ok(()));
    assert!(t.is_running());
    assert_eq!(t.start(), Err(TraderError::AlreadyRunning));
    assert!(t.is_running());
    t.stop();
    assert!(!t.is_running());
    assert_eq!(t.start(), Ok(()));
}

#[test]
fn progressive_counters_advance_only_on_success() {
    let mut t = RandomTrader::new("MINT".to_string());
    t.record_buy_result(true);
    t.record_buy_result(true);
    t.record_buy_result(false);
    t.record_sell_result(false);
    assert_eq!(t.get_progressive_counts(), (2, 0));
    t.record_sell_result(true);
    assert_eq!(t.get_progressive_counts(), (2, 1));
    t.reset_progressive_counters();
    assert_eq!(t.get_progressive_counts(), (0, 0));
}

#[test]
fn progressive_scale_exact() {
    assert_eq!(progressive_scale(1000, 1200, 0), 1000);
    assert_eq!(progressive_scale(1000, 1200, 1), 1200);
    assert_eq!(progressive_scale(1000, 1200, 2), 1440);
}

#[test]
fn plan_buy_exact_first_amount() {
    let mut t = RandomTrader::new("MINT".to_string());
    let config = RandomTraderConfig::default();
    let plan = t.plan_buy(&config);
    assert_eq!(plan.swap_direction, SwapDirection::Buy);
    assert_eq!(plan.in_type, SwapInType::Qty);
    assert_eq!(plan.mint, "MINT".to_string());
    assert_eq!(plan.slippage_bps, 1000);
    // First pseudo-random draw 12345 over the 9_000_000 range above the
    // 1_000_000 minimum, with no progressive step yet.
    assert_eq!(plan.amount_in, 1_012_345);
    assert_eq!(plan.max_buy_amount, 1_012_345);
}

#[test]
fn plan_buy_scales_after_a_delivered_buy() {
    let mut t = RandomTrader::new("MINT".to_string());
    let config = RandomTraderConfig::default();
    let _ = t.plan_buy(&config);
    t.record_buy_result(true);
    let plan = t.plan_buy(&config);
    // Second draw 1103527590: base 1_000_000 + (1103527590 mod 9_000_000)
    // = 6_527_590, scaled once by 1.2.
    assert_eq!(plan.amount_in, 7_833_108);
}

#[test]
fn plan_sell_caps_at_whole_holding() {
    let mut t = RandomTrader::new("MINT".to_string());
    let mut config = RandomTraderConfig::default();
    config.min_sell_percentage_ppm = 900_000;
    config.max_sell_percentage_ppm = 900_000;
    for _ in 0..5 {
        t.record_sell_result(true);
    }
    let plan = t.plan_sell(&config);
    assert_eq!(plan.swap_direction, SwapDirection::Sell);
    assert_eq!(plan.in_type, SwapInType::Pct);
    assert_eq!(plan.max_buy_amount, 0);
    // 900_000 scaled by 1.2 five times overshoots, so the whole holding.
    assert_eq!(plan.amount_in, 1_000_000);
}

#[test]
fn next_interval_stays_in_bounds() {
    let mut t = RandomTrader::new("MINT".to_string());
    let config = RandomTraderConfig::default();
    for _ in 0..100 {
        let r = t.next_interval_seconds(&config);
        assert!((30..300).contains(&r));
    }
}

#[test]
fn default_trader_config_exact() {
    let c = RandomTraderConfig::default();
    assert_eq!(c.min_buy_amount_lamports, 1_000_000);
    assert_eq!(c.max_buy_amount_lamports, 10_000_000);
    assert_eq!(c.min_sell_percentage_ppm, 100_000);
    assert_eq!(c.max_sell_percentage_ppm, 500_000);
    assert_eq!(c.min_interval_seconds, 30);
    assert_eq!(c.max_interval_seconds, 300);
    assert_eq!(c.progressive_increase_factor_milli, 1200);
    assert_eq!(c.max_progressive_steps, 10);
}
