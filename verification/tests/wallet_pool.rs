use organic_trader::wallet_pool::{
    PoolError, RandomizationConfig, TradeType, WalletInfo, WalletPool, WalletProfile,
};

#[test]
fn profile_constants_exact() {
    assert_eq!(WalletProfile::FrequentSeller.get_sell_probability(), 450_000);
    assert_eq!(WalletProfile::LongTermHolder.get_sell_probability(), 150_000);
    assert_eq!(WalletProfile::BalancedTrader.get_sell_probability(), 300_000);
    assert_eq!(WalletProfile::Aggressive.get_sell_probability(), 350_000);
    assert_eq!(WalletProfile::Conservative.get_sell_probability(), 250_000);

    assert_eq!(WalletProfile::FrequentSeller.get_min_hold_time_hours(), 6);
    assert_eq!(WalletProfile::LongTermHolder.get_min_hold_time_hours(), 72);
    assert_eq!(WalletProfile::BalancedTrader.get_min_hold_time_hours(), 24);
    assert_eq!(WalletProfile::Aggressive.get_min_hold_time_hours(), 4);
    assert_eq!(WalletProfile::Conservative.get_min_hold_time_hours(), 48);

    assert_eq!(WalletProfile::FrequentSeller.get_max_hold_time_hours(), 48);
    assert_eq!(WalletProfile::LongTermHolder.get_max_hold_time_hours(), 168);
    assert_eq!(WalletProfile::BalancedTrader.get_max_hold_time_hours(), 96);
    assert_eq!(WalletProfile::Aggressive.get_max_hold_time_hours(), 24);
    assert_eq!(WalletProfile::Conservative.get_max_hold_time_hours(), 120);

    assert_eq!(WalletProfile::Aggressive.get_amount_multiplier(), 1500);
    assert_eq!(WalletProfile::Conservative.get_amount_multiplier(), 600);
    assert_eq!(WalletProfile::Aggressive.get_frequency_multiplier(), 500);
    assert_eq!(WalletProfile::LongTermHolder.get_frequency_multiplier(), 2000);
}

#[test]
fn profile_draw_bands() {
    assert_eq!(WalletProfile::profile_from_draw(0), WalletProfile::FrequentSeller);
    assert_eq!(WalletProfile::profile_from_draw(199_999), WalletProfile::FrequentSeller);
    assert_eq!(WalletProfile::profile_from_draw(200_000), WalletProfile::LongTermHolder);
    assert_eq!(WalletProfile::profile_from_draw(349_999), WalletProfile::LongTermHolder);
    assert_eq!(WalletProfile::profile_from_draw(350_000), WalletProfile::BalancedTrader);
    assert_eq!(WalletProfile::profile_from_draw(699_999), WalletProfile::BalancedTrader);
    assert_eq!(WalletProfile::profile_from_draw(700_000), WalletProfile::Aggressive);
    assert_eq!(WalletProfile::profile_from_draw(849_999), WalletProfile::Aggressive);
    assert_eq!(WalletProfile::profile_from_draw(850_000), WalletProfile::Conservative);
    assert_eq!(WalletProfile::profile_from_draw(999_999), WalletProfile::Conservative);
}

#[test]
fn empty_pool_is_refused() {
    let r = WalletPool::new(&Vec::new(), 0);
    assert!(matches!(r, Err(PoolError::NoWallets)));
}

#[test]
fn equal_usage_selection_reaches_every_identity() {
    // Three identities, all usage zero: every weight is one, so draws
    // 0, 1, 2 select identities 0, 1, 2.
    let usages = vec![0u32, 0, 0];
    assert_eq!(WalletPool::pick_weighted(&usages, 0, 0), 0);
    assert_eq!(WalletPool::pick_weighted(&usages, 0, 1), 1);
    assert_eq!(WalletPool::pick_weighted(&usages, 0, 2), 2);
}

#[test]
fn weighted_selection_favours_less_used() {
    // Usages 0 and 2: weights 3 and 1, so draws 0..2 pick the first
    // identity and draw 3 picks the second.
    let usages = vec![0u32, 2];
    assert_eq!(WalletPool::pick_weighted(&usages, 2, 0), 0);
    assert_eq!(WalletPool::pick_weighted(&usages, 2, 2), 0);
    assert_eq!(WalletPool::pick_weighted(&usages, 2, 3), 1);
}

#[test]
fn selection_returns_a_pool_key_and_bumps_usage() {
    let keys = vec![11u64, 22, 33];
    let mut pool = WalletPool::new(&keys, 0).unwrap();
    let picked = pool.get_random_wallet();
    assert!(keys.contains(&picked));
    let stats = pool.get_usage_stats();
    let total: u32 = stats.iter().map(|(_, u)| *u).sum();
    assert_eq!(total, 1);
    assert_eq!(stats.len(), 3);
}

#[test]
fn repeated_selection_stays_near_uniform() {
    // Inverse-usage weighting actively rebalances: over many selections the
    // usage counts of equal identities stay close to uniform.
    let keys = vec![1u64, 2, 3];
    let mut pool = WalletPool::new(&keys, 0).unwrap();
    for _ in 0..300 {
        pool.get_random_wallet();
    }
    let stats = pool.get_usage_stats();
    let total: u32 = stats.iter().map(|(_, u)| *u).sum();
    assert_eq!(total, 300);
    for (_, u) in stats {
        assert!(u >= 50, "usage {} strayed far from uniform", u);
    }
}

#[test]
fn can_sell_with_delay_exact() {
    let mut w = WalletInfo::new(7, 0);
    assert!(!w.can_sell_with_delay(0, 1_000_000_000));
    w.record_buy(0);
    // Ten hours later.
    let now = 10 * 3_600_000;
    assert!(w.can_sell_with_delay(10, now));
    assert!(!w.can_sell_with_delay(11, now));
}

#[test]
fn wallet_without_buy_never_sells() {
    let w = WalletInfo::new(7, 0);
    assert!(!w.can_sell(0, 1000, 1_000_000_000_000));
}

#[test]
fn selling_needs_a_recorded_buy() {
    let keys = vec![1u64, 2, 3];
    let mut pool = WalletPool::new(&keys, 0).unwrap();
    assert_eq!(pool.get_wallet_for_selling(0, 200, 1_000_000_000_000), None);
}

#[test]
fn selling_picks_the_identity_that_bought() {
    let keys = vec![1u64, 2, 3];
    let mut pool = WalletPool::new(&keys, 0).unwrap();
    pool.record_buy_for_wallet(2, 0);
    // Ten thousand hours later every hold-time bound is met.
    let now = 10_000u64 * 3_600_000;
    let sold = pool.get_wallet_for_selling(0, 200, now);
    assert_eq!(sold, Some(2));
}

#[test]
fn record_buy_for_unknown_key_changes_nothing() {
    let keys = vec![1u64, 2, 3];
    let mut pool = WalletPool::new(&keys, 0).unwrap();
    pool.record_buy_for_wallet(99, 0);
    let stats = pool.get_usage_stats();
    assert!(stats.iter().all(|(_, u)| *u == 0));
}

#[test]
fn intervals_stay_in_their_band() {
    let pool = WalletPool::new(&vec![1u64], 0).unwrap();
    for _ in 0..200 {
        let r = pool.generate_random_interval(10_000);
        assert!(r >= 1000);
        assert!(r <= 110_000);
    }
    // A tiny base is lifted to the floor.
    for _ in 0..50 {
        assert_eq!(pool.generate_random_interval(0), 1000);
    }
}

#[test]
fn interval_from_draws_exact() {
    // Lowest tier with zero fractions: multiplier 0.5x, jitter 0.9x,
    // 1000 * 0.45 = 450, lifted to the 1000 floor.
    assert_eq!(WalletPool::interval_from_draws(1000, 0, 0, 0), 1000);
    // Top of every band: multiplier 9.999x, jitter 1.099x.
    assert_eq!(WalletPool::interval_from_draws(1000, 999_999, 999_999, 999_999), 10_988);
}

#[test]
fn amounts_stay_in_an_aligned_range() {
    let pool = WalletPool::new(&vec![1u64], 0).unwrap();
    let min = 2_000_000u64;
    let max = 10_000_000u64;
    for _ in 0..200 {
        let r = pool.generate_random_amount(min, max);
        assert!(r >= min);
        assert!(r <= max);
        assert_eq!(r % 1_000_000, 0);
    }
}

#[test]
fn amount_from_draws_exact() {
    // Zero draws land on the minimum.
    assert_eq!(WalletPool::amount_from_draws(2_000_000, 10_000_000, 0, 0), 2_000_000);
    // Top draws reach the maximum after rounding.
    assert_eq!(
        WalletPool::amount_from_draws(2_000_000, 10_000_000, 999_999, 999_999),
        10_000_000
    );
}

#[test]
fn buy_probability_adjusts_towards_target() {
    // All buys against a 70 percent target: too many buys, lowered by 0.2.
    let all_buys = vec![TradeType::Buy; 5];
    assert_eq!(WalletPool::buy_probability_ppm(&all_buys, 700_000), 500_000);
    // All sells: too few buys, raised by 0.1.
    let all_sells = vec![TradeType::Sell; 5];
    assert_eq!(WalletPool::buy_probability_ppm(&all_sells, 700_000), 800_000);
    // On target: unchanged.
    let mixed = vec![
        TradeType::Buy,
        TradeType::Buy,
        TradeType::Buy,
        TradeType::Sell,
        TradeType::Sell,
    ];
    assert_eq!(WalletPool::buy_probability_ppm(&mixed, 600_000), 600_000);
}

#[test]
fn should_buy_next_forced_outcomes() {
    let pool = WalletPool::new(&vec![1u64], 0).unwrap();
    // With no recorded trades the first trade is a buy.
    assert!(pool.should_buy_next(&Vec::new(), 0));
    // A zero target with recent buys forces a sell.
    let buys = vec![TradeType::Buy];
    for _ in 0..50 {
        assert!(!pool.should_buy_next(&buys, 0));
    }
    // A near-full target with recent sells forces a buy.
    let sells = vec![TradeType::Sell];
    for _ in 0..50 {
        assert!(pool.should_buy_next(&sells, 999_999));
    }
}

#[test]
fn randomization_configs_exact() {
    let d = RandomizationConfig::default();
    assert_eq!(d.min_amount_lamports, 30_000_000);
    assert_eq!(d.max_amount_lamports, 550_000_000);
    assert_eq!(d.base_buy_interval_ms, 600_000);
    assert_eq!(d.base_sell_interval_ms, 900_000);
    assert_eq!(d.buy_sell_ratio_ppm, 700_000);
    assert_eq!(d.wallet_rotation_frequency, 3);
    assert!(d.enable_realistic_pauses);
    assert_eq!(d.max_consecutive_same_wallet, 5);

    let s = RandomizationConfig::stealth_mode(500_000_000, 900_000_000);
    assert_eq!(s.min_amount_lamports, 500_000_000);
    assert_eq!(s.max_amount_lamports, 900_000_000);
    assert_eq!(s.base_buy_interval_ms, 1_200_000);
    assert_eq!(s.base_sell_interval_ms, 1_800_000);
    assert_eq!(s.wallet_rotation_frequency, 2);
    assert_eq!(s.max_consecutive_same_wallet, 3);

    let c = RandomizationConfig::conservative_mode();
    assert_eq!(c.min_amount_lamports, 50_000_000);
    assert_eq!(c.max_amount_lamports, 300_000_000);
    assert_eq!(c.base_buy_interval_ms, 30_000);
    assert_eq!(c.base_sell_interval_ms, 45_000);
    assert_eq!(c.buy_sell_ratio_ppm, 650_000);
    assert_eq!(c.wallet_rotation_frequency, 5);
    assert_eq!(c.max_consecutive_same_wallet, 7);
}

#[test]
fn reset_clears_usage() {
    let keys = vec![1u64, 2, 3];
    let mut pool = WalletPool::new(&keys, 0).unwrap();
    pool.get_random_wallet();
    pool.get_random_wallet();
    pool.reset_usage_stats();
    assert!(pool.get_usage_stats().iter().all(|(_, u)| *u == 0));
}

#[test]
fn least_used_wallets_come_first() {
    let keys = vec![1u64, 2, 3];
    let mut pool = WalletPool::new(&keys, 0).unwrap();
    pool.record_buy_for_wallet(2, 0);
    pool.record_buy_for_wallet(2, 0);
    let least = pool.get_least_used_wallets(3);
    assert_eq!(least.len(), 3);
    assert_eq!(least[2], 2);
    assert_ne!(least[0], 2);
    let one = pool.get_least_used_wallets(1);
    assert_eq!(one.len(), 1);
    assert_ne!(one[0], 2);
    // Asking for more than the pool holds returns the whole pool.
    assert_eq!(pool.get_least_used_wallets(10).len(), 3);
}

#[test]
fn profile_stats_cover_the_pool() {
    let keys = vec![1u64, 2, 3, 4, 5];
    let pool = WalletPool::new(&keys, 0).unwrap();
    let stats = pool.get_profile_stats();
    assert_eq!(stats.len(), 5);
    let total: usize = stats.iter().map(|(_, c)| *c).sum();
    assert_eq!(total, 5);
}

#[test]
fn wallet_count_matches() {
    let keys = vec![1u64, 2];
    let pool = WalletPool::new(&keys, 0).unwrap();
    assert_eq!(pool.wallet_count(), 2);
}
