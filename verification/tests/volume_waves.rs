use organic_trader::volume_waves::{
    next_phase_from_draw, OrganicWavePattern, PhaseMultipliers, TradingPhase, VolumeWaveManager,
    WeeklyPattern,
};

#[test]
fn transition_table_exact() {
    assert_eq!(next_phase_from_draw(TradingPhase::Active, 0), TradingPhase::Burst);
    assert_eq!(next_phase_from_draw(TradingPhase::Active, 149_999), TradingPhase::Burst);
    assert_eq!(next_phase_from_draw(TradingPhase::Active, 150_000), TradingPhase::Slow);
    assert_eq!(next_phase_from_draw(TradingPhase::Slow, 99_999), TradingPhase::Dormant);
    assert_eq!(next_phase_from_draw(TradingPhase::Slow, 100_000), TradingPhase::Active);
    assert_eq!(next_phase_from_draw(TradingPhase::Burst, 0), TradingPhase::Slow);
    assert_eq!(next_phase_from_draw(TradingPhase::Burst, 999_999), TradingPhase::Slow);
    assert_eq!(next_phase_from_draw(TradingPhase::Dormant, 0), TradingPhase::Active);
    assert_eq!(next_phase_from_draw(TradingPhase::Dormant, 999_999), TradingPhase::Active);
}

#[test]
fn dwell_elapsed_fires_exactly_one_transition() {
    let mut m = VolumeWaveManager::new(1, 1, 0);
    m.force_phase(TradingPhase::Active, 0);
    // Before the one-hour dwell nothing moves.
    assert_eq!(m.get_current_phase(3_599_999), TradingPhase::Active);
    // At the dwell exactly one transition fires, landing in Burst or Slow.
    let next = m.get_current_phase(3_600_000);
    assert!(next == TradingPhase::Burst || next == TradingPhase::Slow);
    // The phase clock restarted, so an immediate second call cannot fire
    // another transition.
    assert_eq!(m.get_current_phase(3_600_000), next);
    let info = m.get_wave_info(3_600_000);
    assert_eq!(info.time_in_phase_ms, 0);
}

#[test]
fn burst_always_cools_down_to_slow() {
    let mut m = VolumeWaveManager::new(1, 1, 0);
    m.force_phase(TradingPhase::Burst, 0);
    // The burst dwell is fixed at 15 minutes.
    assert_eq!(m.get_current_phase(899_999), TradingPhase::Burst);
    assert_eq!(m.get_current_phase(900_000), TradingPhase::Slow);
}

#[test]
fn dormant_always_wakes_to_active() {
    let mut m = VolumeWaveManager::new(1, 1, 0);
    m.force_phase(TradingPhase::Dormant, 0);
    // The dormant dwell is fixed at one hour.
    assert_eq!(m.get_current_phase(3_599_999), TradingPhase::Dormant);
    assert_eq!(m.get_current_phase(3_600_000), TradingPhase::Active);
}

#[test]
fn default_multipliers_exact() {
    let mut m = VolumeWaveManager::new(1, 1, 0);
    m.force_phase(TradingPhase::Active, 0);
    assert_eq!(m.get_frequency_multiplier(), 1000);
    assert_eq!(m.get_amount_multiplier(), 1000);
    m.force_phase(TradingPhase::Slow, 0);
    assert_eq!(m.get_frequency_multiplier(), 2500);
    assert_eq!(m.get_amount_multiplier(), 700);
    m.force_phase(TradingPhase::Burst, 0);
    assert_eq!(m.get_frequency_multiplier(), 300);
    assert_eq!(m.get_amount_multiplier(), 1500);
    m.force_phase(TradingPhase::Dormant, 0);
    assert_eq!(m.get_frequency_multiplier(), 4000);
    assert_eq!(m.get_amount_multiplier(), 300);
}

#[test]
fn custom_multipliers_apply() {
    let mut m = VolumeWaveManager::new(1, 1, 0);
    let mut custom = PhaseMultipliers::default();
    custom.active_frequency_milli = 2000;
    custom.active_amount_milli = 500;
    m.set_activity_multipliers(custom);
    m.force_phase(TradingPhase::Active, 0);
    assert_eq!(m.get_frequency_multiplier(), 2000);
    assert_eq!(m.get_amount_multiplier(), 500);
}

#[test]
fn wave_info_exact() {
    let mut m = VolumeWaveManager::new(1, 1, 0);
    m.force_phase(TradingPhase::Burst, 1000);
    let info = m.get_wave_info(61_000);
    assert_eq!(info.current_phase, TradingPhase::Burst);
    assert_eq!(info.time_in_phase_ms, 60_000);
    assert_eq!(info.time_remaining_ms, 840_000);
    assert_eq!(info.frequency_multiplier_milli, 300);
    assert_eq!(info.amount_multiplier_milli, 1500);
}

#[test]
fn natural_interval_exact_value() {
    // Phase 1x, third hour of the phase (night band 1.5x), zero jitter draw
    // (0.8x): 600000 * 1.2 = 720000.
    assert_eq!(
        VolumeWaveManager::natural_interval_from_draw(600_000, 1000, 3, 0),
        720_000
    );
}

#[test]
fn natural_interval_stays_bounded() {
    let mut m = VolumeWaveManager::new(1, 1, 0);
    m.force_phase(TradingPhase::Active, 0);
    for i in 0..100u64 {
        let r = m.get_natural_interval(600_000, i * 10_000);
        // Phase multiplier 1000: never more than twice the base.
        assert!(r <= 1_200_000);
    }
}

#[test]
fn weekly_pattern_bands() {
    for _ in 0..20 {
        let w = WeeklyPattern::generate_random();
        // The fifth day of the epoch (day number 4) was a Monday.
        let monday_ms = 4 * 86_400_000;
        let weekday = w.get_current_multiplier(monday_ms);
        assert!((800..1200).contains(&weekday));
        // Day number 2 was a Saturday.
        let saturday_ms = 2 * 86_400_000;
        let weekend = w.get_current_multiplier(saturday_ms);
        assert!((1200..1800).contains(&weekend));
    }
}

#[test]
fn organic_interval_runs_and_stays_bounded() {
    let mut o = OrganicWavePattern::new(1, 1, 0);
    for i in 0..50u64 {
        let r = o.get_organic_interval(600_000, i * 10_000);
        let info = o.get_info(i * 10_000);
        // Four times the phase-scaled base, for the heaviest default
        // phase multiplier (dormant at 4x).
        assert!(r as u128 <= 600_000u128 * info.frequency_multiplier_milli as u128 * 4 / 1000);
    }
}
