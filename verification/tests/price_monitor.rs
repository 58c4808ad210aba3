use organic_trader::price_monitor::{PriceMonitor, PriceTrend};

#[test]
fn history_never_exceeds_maximum() {
    let mut m = PriceMonitor::new(5, 50_000);
    for i in 0..10u64 {
        m.add_price_point(100, 1, i * 1000);
        assert!(m.get_price_stats().data_points <= 5);
    }
    assert_eq!(m.get_price_stats().data_points, 5);
}

#[test]
fn cleanup_evicts_points_past_retention() {
    let mut m = PriceMonitor::new(100, 50_000);
    m.add_price_point(100, 1, 0);
    m.add_price_point(101, 1, 1_000);
    m.add_price_point(102, 1, 90_000_000);
    // The first two points are older than 24 hours as of this instant.
    m.cleanup_old_data(90_000_000);
    assert_eq!(m.get_price_stats().data_points, 1);
    assert_eq!(m.get_price_stats().current_price, 102);
}

#[test]
fn cleanup_keeps_recent_points() {
    let mut m = PriceMonitor::new(100, 50_000);
    m.add_price_point(100, 1, 0);
    m.add_price_point(101, 1, 1_000);
    m.cleanup_old_data(2_000);
    assert_eq!(m.get_price_stats().data_points, 2);
}

#[test]
fn sharp_rise_activates_throttling() {
    // Threshold 5 percent; prices 100, 100, 106 within one minute.
    let mut m = PriceMonitor::new(100, 50_000);
    assert!(!m.is_throttling());
    m.add_price_point(100, 1, 0);
    m.add_price_point(100, 1, 30_000);
    m.add_price_point(106, 1, 60_000);
    assert!(m.is_throttling());
    assert_eq!(m.get_throttling_multiplier(), 3000);
}

#[test]
fn two_window_points_suffice_to_activate() {
    // The throttle recomputes as soon as two points stand in the trailing
    // window; no larger history is needed.
    let mut m = PriceMonitor::new(100, 50_000);
    m.add_price_point(100, 1, 0);
    assert!(!m.is_throttling());
    m.add_price_point(200, 1, 1_000);
    assert!(m.is_throttling());
}

#[test]
fn cooldown_deactivates_exactly_at_the_duration() {
    let mut m = PriceMonitor::new(100, 50_000);
    m.add_price_point(100, 1, 0);
    m.add_price_point(106, 1, 60_000);
    assert!(m.is_throttling());
    // Just short of the 30-minute cool-down (activation at 60_000) the
    // throttle holds...
    m.add_price_point(106, 1, 1_859_998);
    m.add_price_point(106, 1, 1_859_999);
    assert!(m.is_throttling());
    // ...and at exactly the cool-down it ends.
    m.add_price_point(106, 1, 1_860_000);
    assert!(!m.is_throttling());
}

#[test]
fn rise_exactly_at_threshold_does_not_activate() {
    // 100 to 105 is exactly 5 percent: the comparison is strict.
    let mut m = PriceMonitor::new(100, 50_000);
    m.add_price_point(100, 1, 0);
    m.add_price_point(100, 1, 30_000);
    m.add_price_point(105, 1, 60_000);
    assert!(!m.is_throttling());
    assert_eq!(m.get_throttling_multiplier(), 1000);
}

#[test]
fn throttling_ends_after_cooldown_without_fresh_rise() {
    let mut m = PriceMonitor::new(100, 50_000);
    m.add_price_point(100, 1, 0);
    m.add_price_point(100, 1, 30_000);
    m.add_price_point(106, 1, 60_000);
    assert!(m.is_throttling());
    // Much later, flat prices: the old points have left the ten-minute
    // window, no fresh rise stands, and the cool-down has elapsed.
    m.add_price_point(106, 1, 2_000_000);
    m.add_price_point(106, 1, 2_000_100);
    m.add_price_point(106, 1, 2_000_200);
    assert!(!m.is_throttling());
    assert_eq!(m.get_throttling_multiplier(), 1000);
}

#[test]
fn throttling_stays_on_before_cooldown() {
    let mut m = PriceMonitor::new(100, 50_000);
    m.add_price_point(100, 1, 0);
    m.add_price_point(100, 1, 30_000);
    m.add_price_point(106, 1, 60_000);
    assert!(m.is_throttling());
    // A minute later the rise still stands in the window and the cool-down
    // has not elapsed: the throttle holds without the price falling back.
    m.add_price_point(106, 1, 120_000);
    assert!(m.is_throttling());
}

#[test]
fn trend_classification_bands() {
    let trend_of = |last: u64| {
        let mut m = PriceMonitor::new(100, 50_000);
        for (i, p) in [100u64, 100, 100, 100].iter().enumerate() {
            m.add_price_point(*p, 1, i as u64 * 1000);
        }
        m.add_price_point(last, 1, 10_000);
        m.get_price_trend()
    };
    assert_eq!(trend_of(106), PriceTrend::StrongUpward);
    assert_eq!(trend_of(103), PriceTrend::Upward);
    assert_eq!(trend_of(101), PriceTrend::Neutral);
    assert_eq!(trend_of(97), PriceTrend::Downward);
    assert_eq!(trend_of(94), PriceTrend::StrongDownward);
}

#[test]
fn trend_needs_five_points() {
    let mut m = PriceMonitor::new(100, 50_000);
    m.add_price_point(100, 1, 0);
    m.add_price_point(200, 1, 1000);
    m.add_price_point(300, 1, 2000);
    m.add_price_point(400, 1, 3000);
    assert_eq!(m.get_price_trend(), PriceTrend::Neutral);
}

#[test]
fn volatility_of_flat_prices_is_zero() {
    let mut m = PriceMonitor::new(100, 50_000);
    for i in 0..5u64 {
        m.add_price_point(100, 1, i * 1000);
    }
    assert_eq!(m.get_volatility(), 0);
}

#[test]
fn volatility_exact_value() {
    // Prices 90, 100, 110: mean 100, variance 66 (floor), sqrt 8,
    // so 8 * 1_000_000 / 100 = 80_000 parts per million.
    let mut m = PriceMonitor::new(100, 50_000);
    m.add_price_point(90, 1, 0);
    m.add_price_point(100, 1, 1000);
    m.add_price_point(110, 1, 2000);
    assert_eq!(m.get_volatility(), 80_000);
}

#[test]
fn volatility_needs_three_points() {
    let mut m = PriceMonitor::new(100, 50_000);
    m.add_price_point(90, 1, 0);
    m.add_price_point(110, 1, 1000);
    assert_eq!(m.get_volatility(), 0);
}

#[test]
fn price_stats_exact_values() {
    let mut m = PriceMonitor::new(100, 50_000);
    m.add_price_point(90, 1, 0);
    m.add_price_point(100, 1, 1000);
    m.add_price_point(110, 1, 2000);
    let st = m.get_price_stats();
    assert_eq!(st.current_price, 110);
    assert_eq!(st.min_price, 90);
    assert_eq!(st.max_price, 110);
    assert_eq!(st.avg_price, 100);
    assert_eq!(st.volatility, 80_000);
    assert_eq!(st.data_points, 3);
}

#[test]
fn price_stats_of_empty_history() {
    let m = PriceMonitor::new(100, 50_000);
    let st = m.get_price_stats();
    assert_eq!(st.data_points, 0);
    assert_eq!(st.current_price, 0);
    assert_eq!(st.trend, PriceTrend::Neutral);
}
