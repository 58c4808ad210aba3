//! Volume waves: a phase state machine that paces trading over hour-scale
//! horizons, with hour-of-day and day-of-week multipliers layered on top.
//!
//! Multipliers are in thousandths; times in milliseconds, supplied by the
//! caller.

use vstd::prelude::*;
use crate::rng::{PPM, rand_below, rand_unit_ppm};

verus! {

/// How long a burst phase lasts.
pub const BURST_DURATION_MS: u64 = 900_000;

/// How long a dormant phase lasts.
pub const DORMANT_DURATION_MS: u64 = 3_600_000;

/// Milliseconds in one hour.
pub const WAVE_HOUR_MS: u64 = 3_600_000;

/// Largest representable activity multiplier (a thousandfold), so that
/// scaled intervals fit the machine words they are computed in.
pub const MULTIPLIER_MAX_MILLI: u64 = 1_000_000;

/// Trading phases for volume waves.
#[derive(Debug, Clone, Copy, PartialEq, Eq, Structural)]
pub enum TradingPhase {
    /// Normal high activity.
    Active,
    /// Reduced activity.
    Slow,
    /// Very high activity for a short while.
    Burst,
    /// Minimal activity for a longer pause.
    Dormant,
}

/// Frequency and amount multipliers for each phase, in thousandths.
#[derive(Debug, Clone, Copy, PartialEq, Eq, Structural)]
pub struct PhaseMultipliers {
    pub active_frequency_milli: u64,
    pub active_amount_milli: u64,
    pub slow_frequency_milli: u64,
    pub slow_amount_milli: u64,
    pub burst_frequency_milli: u64,
    pub burst_amount_milli: u64,
    pub dormant_frequency_milli: u64,
    pub dormant_amount_milli: u64,
}

impl PhaseMultipliers {
    /// The standard multipliers: slow trades at 2.5x intervals and 0.7x
    /// amounts, bursts at 0.3x intervals and 1.5x amounts, dormancy at 4x
    /// intervals and 0.3x amounts.
    pub open spec fn spec_default() -> PhaseMultipliers {
        PhaseMultipliers {
            active_frequency_milli: 1000,
            active_amount_milli: 1000,
            slow_frequency_milli: 2500,
            slow_amount_milli: 700,
            burst_frequency_milli: 300,
            burst_amount_milli: 1500,
            dormant_frequency_milli: 4000,
            dormant_amount_milli: 300,
        }
    }
}

impl Default for PhaseMultipliers {
    /// The standard multipliers.
    fn default() -> (r: Self)
        ensures
            r == PhaseMultipliers::spec_default(),
    {
        PhaseMultipliers {
            active_frequency_milli: 1000,
            active_amount_milli: 1000,
            slow_frequency_milli: 2500,
            slow_amount_milli: 700,
            burst_frequency_milli: 300,
            burst_amount_milli: 1500,
            dormant_frequency_milli: 4000,
            dormant_amount_milli: 300,
        }
    }
}

/// The phase a transition draw moves to: Active goes to Burst on 15 percent
/// of draws and to Slow otherwise; Slow goes to Dormant on 10 percent and to
/// Active otherwise; Burst always cools down to Slow; Dormant always wakes
/// to Active.
pub open spec fn spec_next_phase(p: TradingPhase, draw_ppm: int) -> TradingPhase {
    match p {
        TradingPhase::Active => if draw_ppm < 150_000 {
            TradingPhase::Burst
        } else {
            TradingPhase::Slow
        },
        TradingPhase::Slow => if draw_ppm < 100_000 {
            TradingPhase::Dormant
        } else {
            TradingPhase::Active
        },
        TradingPhase::Burst => TradingPhase::Slow,
        TradingPhase::Dormant => TradingPhase::Active,
    }
}

/// The phase a given transition draw moves to: the verified table behind the
/// phase switch.
pub fn next_phase_from_draw(p: TradingPhase, draw_ppm: u64) -> (r: TradingPhase)
    ensures
        r == spec_next_phase(p, draw_ppm as int),
{
    match p {
        TradingPhase::Active => if draw_ppm < 150_000 {
            TradingPhase::Burst
        } else {
            TradingPhase::Slow
        },
        TradingPhase::Slow => if draw_ppm < 100_000 {
            TradingPhase::Dormant
        } else {
            TradingPhase::Active
        },
        TradingPhase::Burst => TradingPhase::Slow,
        TradingPhase::Dormant => TradingPhase::Active,
    }
}

/// Time spent in the current phase at `now_ms`, zero when the clock reads
/// earlier than the phase start.
pub open spec fn spec_elapsed(phase_start_ms: u64, now_ms: u64) -> int {
    if now_ms >= phase_start_ms {
        now_ms - phase_start_ms
    } else {
        0
    }
}

/// The random variation multiplier a draw picks, in thousandths: up to a
/// fifth either way of the neutral multiplier.
pub open spec fn spec_variation_milli(frac: int) -> int {
    800 + frac * 400 / (PPM as int)
}

/// The hour of day a timestamp falls in.
pub open spec fn spec_hour_of_day(now_ms: u64) -> int {
    ((now_ms as int) / (WAVE_HOUR_MS as int)) % 24
}

/// The hour-of-day multiplier, in thousandths: mornings and afternoons trade
/// faster, nights much slower.
pub open spec fn spec_hour_multiplier_milli(hour: int) -> int {
    if 6 <= hour <= 9 {
        800
    } else if 10 <= hour <= 11 {
        1200
    } else if 12 <= hour <= 14 {
        900
    } else if 15 <= hour <= 17 {
        700
    } else if 18 <= hour <= 20 {
        1100
    } else if 21 <= hour <= 23 {
        1300
    } else if 0 <= hour <= 5 {
        1500
    } else {
        1000
    }
}

/// The natural interval of a machine at `now_ms` under a variation draw:
/// the base scaled by the combined phase, hour-of-day and variation
/// multipliers, capped at the machine word.
pub open spec fn spec_natural_interval(
    m: VolumeWaveManager,
    base_interval_ms: int,
    now_ms: u64,
    frac: int,
) -> int {
    let time_m = spec_hour_multiplier_milli(spec_hour_of_day(now_ms));
    let combined = m.spec_frequency_multiplier() * time_m / 1000 * spec_variation_milli(frac)
        / 1000;
    let v = base_interval_ms * combined / 1000;
    if v > u64::MAX as int {
        u64::MAX as int
    } else {
        v
    }
}

/// Information about the current volume wave state.
#[derive(Debug, Clone, Copy, PartialEq, Eq, Structural)]
pub struct VolumeWaveInfo {
    pub current_phase: TradingPhase,
    pub time_in_phase_ms: u64,
    pub time_remaining_ms: u64,
    pub frequency_multiplier_milli: u64,
    pub amount_multiplier_milli: u64,
}

/// The phase state machine that modulates trading cadence and size.
pub struct VolumeWaveManager {
    current_phase: TradingPhase,
    phase_start_time_ms: u64,
    active_duration_ms: u64,
    slow_duration_ms: u64,
    activity_multipliers: PhaseMultipliers,
}

impl VolumeWaveManager {
    /// The phase the machine is in.
    pub closed spec fn phase(self) -> TradingPhase {
        self.current_phase
    }

    /// When the current phase began.
    pub closed spec fn phase_start(self) -> u64 {
        self.phase_start_time_ms
    }

    /// The configured dwell of the active phase.
    pub closed spec fn active_duration(self) -> u64 {
        self.active_duration_ms
    }

    /// The configured dwell of the slow phase.
    pub closed spec fn slow_duration(self) -> u64 {
        self.slow_duration_ms
    }

    /// The configured multipliers.
    pub closed spec fn multipliers(self) -> PhaseMultipliers {
        self.activity_multipliers
    }

    /// Well-formedness: every activity multiplier is representable.
    pub open spec fn wf(self) -> bool {
        &&& self.multipliers().active_frequency_milli <= MULTIPLIER_MAX_MILLI
        &&& self.multipliers().active_amount_milli <= MULTIPLIER_MAX_MILLI
        &&& self.multipliers().slow_frequency_milli <= MULTIPLIER_MAX_MILLI
        &&& self.multipliers().slow_amount_milli <= MULTIPLIER_MAX_MILLI
        &&& self.multipliers().burst_frequency_milli <= MULTIPLIER_MAX_MILLI
        &&& self.multipliers().burst_amount_milli <= MULTIPLIER_MAX_MILLI
        &&& self.multipliers().dormant_frequency_milli <= MULTIPLIER_MAX_MILLI
        &&& self.multipliers().dormant_amount_milli <= MULTIPLIER_MAX_MILLI
    }

    /// The dwell of the phase the machine is in.
    pub open spec fn spec_dwell(self) -> int {
        match self.phase() {
            TradingPhase::Active => self.active_duration() as int,
            TradingPhase::Slow => self.slow_duration() as int,
            TradingPhase::Burst => BURST_DURATION_MS as int,
            TradingPhase::Dormant => DORMANT_DURATION_MS as int,
        }
    }

    /// The frequency multiplier of the phase the machine is in.
    pub open spec fn spec_frequency_multiplier(self) -> int {
        match self.phase() {
            TradingPhase::Active => self.multipliers().active_frequency_milli as int,
            TradingPhase::Slow => self.multipliers().slow_frequency_milli as int,
            TradingPhase::Burst => self.multipliers().burst_frequency_milli as int,
            TradingPhase::Dormant => self.multipliers().dormant_frequency_milli as int,
        }
    }

    /// The amount multiplier of the phase the machine is in.
    pub open spec fn spec_amount_multiplier(self) -> int {
        match self.phase() {
            TradingPhase::Active => self.multipliers().active_amount_milli as int,
            TradingPhase::Slow => self.multipliers().slow_amount_milli as int,
            TradingPhase::Burst => self.multipliers().burst_amount_milli as int,
            TradingPhase::Dormant => self.multipliers().dormant_amount_milli as int,
        }
    }

    /// Creates a manager with the given active and slow dwell times, in
    /// hours, starting at `now_ms` in the active phase on 60 percent of
    /// draws and in the slow phase otherwise, with the standard multipliers.
    pub fn new(active_hours: u64, slow_hours: u64, now_ms: u64) -> (r: VolumeWaveManager)
        requires
            active_hours * (WAVE_HOUR_MS as int) <= u64::MAX,
            slow_hours * (WAVE_HOUR_MS as int) <= u64::MAX,
        ensures
            r.wf(),
            r.phase() == TradingPhase::Active || r.phase() == TradingPhase::Slow,
            r.phase_start() == now_ms,
            r.active_duration() == active_hours * (WAVE_HOUR_MS as int),
            r.slow_duration() == slow_hours * (WAVE_HOUR_MS as int),
            r.multipliers() == PhaseMultipliers::spec_default(),
    {
        let draw = rand_unit_ppm();
        let initial_phase = if draw < 600_000 {
            TradingPhase::Active
        } else {
            TradingPhase::Slow
        };
        VolumeWaveManager {
            current_phase: initial_phase,
            phase_start_time_ms: now_ms,
            active_duration_ms: active_hours * WAVE_HOUR_MS,
            slow_duration_ms: slow_hours * WAVE_HOUR_MS,
            activity_multipliers: PhaseMultipliers::default(),
        }
    }

    /// Switches to the next phase according to the transition table, and
    /// restarts the phase clock at `now_ms`.
    fn switch_phase(&mut self, now_ms: u64)
        ensures
            final(self).phase_start() == now_ms,
            old(self).phase() == TradingPhase::Active ==> final(self).phase()
                == TradingPhase::Burst || final(self).phase() == TradingPhase::Slow,
            old(self).phase() == TradingPhase::Slow ==> final(self).phase()
                == TradingPhase::Dormant || final(self).phase() == TradingPhase::Active,
            old(self).phase() == TradingPhase::Burst ==> final(self).phase()
                == TradingPhase::Slow,
            old(self).phase() == TradingPhase::Dormant ==> final(self).phase()
                == TradingPhase::Active,
            final(self).active_duration() == old(self).active_duration(),
            final(self).slow_duration() == old(self).slow_duration(),
            final(self).multipliers() == old(self).multipliers(),
    {
        let draw = rand_unit_ppm();
        self.current_phase = next_phase_from_draw(self.current_phase, draw);
        self.phase_start_time_ms = now_ms;
    }

    /// The current phase, advanced lazily: when the time in the current
    /// phase has reached its dwell, exactly one transition fires (the phase
    /// clock restarts at `now_ms`), landing only where the transition table
    /// allows; otherwise the machine is untouched.
    pub fn get_current_phase(&mut self, now_ms: u64) -> (r: TradingPhase)
        ensures
            r == final(self).phase(),
            final(self).active_duration() == old(self).active_duration(),
            final(self).slow_duration() == old(self).slow_duration(),
            final(self).multipliers() == old(self).multipliers(),
            spec_elapsed(old(self).phase_start(), now_ms) < old(self).spec_dwell() ==> *final(self)
                == *old(self),
            spec_elapsed(old(self).phase_start(), now_ms) >= old(self).spec_dwell() ==> {
                &&& final(self).phase_start() == now_ms
                &&& (old(self).phase() == TradingPhase::Active ==> final(self).phase()
                    == TradingPhase::Burst || final(self).phase() == TradingPhase::Slow)
                &&& (old(self).phase() == TradingPhase::Slow ==> final(self).phase()
                    == TradingPhase::Dormant || final(self).phase() == TradingPhase::Active)
                &&& (old(self).phase() == TradingPhase::Burst ==> final(self).phase()
                    == TradingPhase::Slow)
                &&& (old(self).phase() == TradingPhase::Dormant ==> final(self).phase()
                    == TradingPhase::Active)
            },
    {
        let elapsed: u64 = if now_ms >= self.phase_start_time_ms {
            now_ms - self.phase_start_time_ms
        } else {
            0
        };
        let dwell: u64 = match self.current_phase {
            TradingPhase::Active => self.active_duration_ms,
            TradingPhase::Slow => self.slow_duration_ms,
            TradingPhase::Burst => BURST_DURATION_MS,
            TradingPhase::Dormant => DORMANT_DURATION_MS,
        };
        if elapsed >= dwell {
            self.switch_phase(now_ms);
        }
        self.current_phase
    }

    /// The frequency multiplier of the current phase, in thousandths.
    pub fn get_frequency_multiplier(&self) -> (r: u64)
        ensures
            r == self.spec_frequency_multiplier(),
    {
        match self.current_phase {
            TradingPhase::Active => self.activity_multipliers.active_frequency_milli,
            TradingPhase::Slow => self.activity_multipliers.slow_frequency_milli,
            TradingPhase::Burst => self.activity_multipliers.burst_frequency_milli,
            TradingPhase::Dormant => self.activity_multipliers.dormant_frequency_milli,
        }
    }

    /// The amount multiplier of the current phase, in thousandths.
    pub fn get_amount_multiplier(&self) -> (r: u64)
        ensures
            r == self.spec_amount_multiplier(),
    {
        match self.current_phase {
            TradingPhase::Active => self.activity_multipliers.active_amount_milli,
            TradingPhase::Slow => self.activity_multipliers.slow_amount_milli,
            TradingPhase::Burst => self.activity_multipliers.burst_amount_milli,
            TradingPhase::Dormant => self.activity_multipliers.dormant_amount_milli,
        }
    }

    /// The current phase with the time spent in it, the time remaining of
    /// its dwell, and its multipliers, as of `now_ms`.
    pub fn get_wave_info(&self, now_ms: u64) -> (info: VolumeWaveInfo)
        ensures
            info.current_phase == self.phase(),
            info.time_in_phase_ms == spec_elapsed(self.phase_start(), now_ms),
            info.time_remaining_ms == if self.spec_dwell() >= spec_elapsed(
                self.phase_start(),
                now_ms,
            ) {
                self.spec_dwell() - spec_elapsed(self.phase_start(), now_ms)
            } else {
                0
            },
            info.frequency_multiplier_milli == self.spec_frequency_multiplier(),
            info.amount_multiplier_milli == self.spec_amount_multiplier(),
    {
        let elapsed: u64 = if now_ms >= self.phase_start_time_ms {
            now_ms - self.phase_start_time_ms
        } else {
            0
        };
        let dwell: u64 = match self.current_phase {
            TradingPhase::Active => self.active_duration_ms,
            TradingPhase::Slow => self.slow_duration_ms,
            TradingPhase::Burst => BURST_DURATION_MS,
            TradingPhase::Dormant => DORMANT_DURATION_MS,
        };
        let remaining: u64 = if dwell >= elapsed {
            dwell - elapsed
        } else {
            0
        };
        VolumeWaveInfo {
            current_phase: self.current_phase,
            time_in_phase_ms: elapsed,
            time_remaining_ms: remaining,
            frequency_multiplier_milli: self.get_frequency_multiplier(),
            amount_multiplier_milli: self.get_amount_multiplier(),
        }
    }

    /// Replaces the activity multipliers.
    pub fn set_activity_multipliers(&mut self, multipliers: PhaseMultipliers)
        requires
            multipliers.active_frequency_milli <= MULTIPLIER_MAX_MILLI,
            multipliers.active_amount_milli <= MULTIPLIER_MAX_MILLI,
            multipliers.slow_frequency_milli <= MULTIPLIER_MAX_MILLI,
            multipliers.slow_amount_milli <= MULTIPLIER_MAX_MILLI,
            multipliers.burst_frequency_milli <= MULTIPLIER_MAX_MILLI,
            multipliers.burst_amount_milli <= MULTIPLIER_MAX_MILLI,
            multipliers.dormant_frequency_milli <= MULTIPLIER_MAX_MILLI,
            multipliers.dormant_amount_milli <= MULTIPLIER_MAX_MILLI,
        ensures
            final(self).wf(),
            final(self).multipliers() == multipliers,
            final(self).phase() == old(self).phase(),
            final(self).phase_start() == old(self).phase_start(),
            final(self).active_duration() == old(self).active_duration(),
            final(self).slow_duration() == old(self).slow_duration(),
    {
        self.activity_multipliers = multipliers;
    }

    /// Forces the machine into the given phase, restarting the phase clock
    /// at `now_ms`.
    pub fn force_phase(&mut self, phase: TradingPhase, now_ms: u64)
        ensures
            final(self).phase() == phase,
            final(self).phase_start() == now_ms,
            final(self).active_duration() == old(self).active_duration(),
            final(self).slow_duration() == old(self).slow_duration(),
            final(self).multipliers() == old(self).multipliers(),
    {
        self.current_phase = phase;
        self.phase_start_time_ms = now_ms;
    }

    /// A natural interval as of `now_ms`: the base interval scaled by the
    /// phase multiplier, the hour-of-day multiplier of the wall-clock hour,
    /// and a random variation of up to a fifth either way; capped at the
    /// machine word. The result is always [`spec_natural_interval`] of this
    /// machine at some uniform draw.
    pub fn get_natural_interval(&self, base_interval_ms: u64, now_ms: u64) -> (r: u64)
        requires
            self.wf(),
        ensures
            r as int <= (base_interval_ms as int) * self.spec_frequency_multiplier() * 2 / 1000,
            exists|frac: int|
                {
                    &&& 0 <= frac < PPM as int
                    &&& r as int == #[trigger] spec_natural_interval(
                        *self,
                        base_interval_ms as int,
                        now_ms,
                        frac,
                    )
                },
    {
        let phase_multiplier = self.get_frequency_multiplier();
        let hour_of_day: u64 = (now_ms / WAVE_HOUR_MS) % 24;
        let rand_frac = rand_unit_ppm();
        let r = Self::natural_interval_from_draw(
            base_interval_ms,
            phase_multiplier,
            hour_of_day,
            rand_frac,
        );
        proof {
            assert(hour_of_day as int == spec_hour_of_day(now_ms));
            assert(r as int == spec_natural_interval(
                *self,
                base_interval_ms as int,
                now_ms,
                rand_frac as int,
            ));
        }
        r
    }

    /// The natural interval given draws pick: the verified arithmetic behind
    /// [`VolumeWaveManager::get_natural_interval`]. The phase, hour-of-day
    /// and random multipliers are combined first, then applied to the base.
    pub fn natural_interval_from_draw(
        base_interval_ms: u64,
        phase_multiplier_milli: u64,
        hour_of_day: u64,
        rand_frac: u64,
    ) -> (r: u64)
        requires
            phase_multiplier_milli <= MULTIPLIER_MAX_MILLI,
            hour_of_day < 24,
            rand_frac < PPM,
        ensures
            r as int == ({
                let time_m = spec_hour_multiplier_milli(hour_of_day as int);
                let rand_m = spec_variation_milli(rand_frac as int);
                let combined = (phase_multiplier_milli as int) * time_m / 1000 * rand_m / 1000;
                let v = (base_interval_ms as int) * combined / 1000;
                if v > u64::MAX as int {
                    u64::MAX as int
                } else {
                    v
                }
            }),
            r as int <= (base_interval_ms as int) * (phase_multiplier_milli as int) * 2 / 1000,
    {
        let time_multiplier: u64 = if hour_of_day >= 6 && hour_of_day <= 9 {
            800
        } else if hour_of_day >= 10 && hour_of_day <= 11 {
            1200
        } else if hour_of_day >= 12 && hour_of_day <= 14 {
            900
        } else if hour_of_day >= 15 && hour_of_day <= 17 {
            700
        } else if hour_of_day >= 18 && hour_of_day <= 20 {
            1100
        } else if hour_of_day >= 21 && hour_of_day <= 23 {
            1300
        } else {
            1500
        };
        let rand_multiplier: u64 = 800 + rand_frac * 400 / PPM;
        proof {
            assert((rand_frac as int) * 400 / (PPM as int) < 400 && (rand_frac as int) * 400 / (
            PPM as int) >= 0) by (nonlinear_arith)
                requires 0 <= rand_frac < PPM as int;
        }
        let pm = phase_multiplier_milli as u128;
        proof {
            assert((pm as int) * (time_multiplier as int) <= u128::MAX as int) by (nonlinear_arith)
                requires 0 <= pm <= MULTIPLIER_MAX_MILLI && 0 <= time_multiplier <= 1500;
            assert((pm as int) * (time_multiplier as int) / 1000 * (rand_multiplier as int)
                <= u128::MAX as int) by (nonlinear_arith)
                requires
                    0 <= pm <= MULTIPLIER_MAX_MILLI,
                    0 <= time_multiplier <= 1500,
                    800 <= rand_multiplier < 1200,
            ;
        }
        let combined128: u128 = pm * (time_multiplier as u128) / 1000 * (rand_multiplier as u128)
            / 1000;
        proof {
            lemma_combined_multiplier_bound(
                phase_multiplier_milli as int,
                time_multiplier as int,
                rand_multiplier as int,
            );
            assert((base_interval_ms as int) * (combined128 as int) <= u128::MAX as int)
                by (nonlinear_arith)
                requires
                    0 <= base_interval_ms <= u64::MAX,
                    0 <= combined128 <= 2 * (MULTIPLIER_MAX_MILLI as int),
            ;
        }
        let wide: u128 = (base_interval_ms as u128) * combined128 / 1000;
        proof {
            lemma_scaled_base_bound(
                base_interval_ms as int,
                phase_multiplier_milli as int,
                combined128 as int,
            );
        }
        if wide > (u64::MAX as u128) {
            u64::MAX
        } else {
            wide as u64
        }
    }
}

/// The day of week a millisecond timestamp falls on, with Monday as zero
/// (the epoch began on a Thursday).
pub open spec fn spec_day_of_week(now_ms: u64) -> int {
    ((now_ms as int) / 1000 / 86400 + 3) % 7
}

/// Day-of-week multipliers, in thousandths: weekdays run at 0.8x-1.2x,
/// weekends trade more slowly at 1.2x-1.8x. Fixed once at construction from
/// random draws.
pub struct WeeklyPattern {
    day_multipliers_milli: Vec<u64>,
}

impl WeeklyPattern {
    /// The multiplier of each day, Monday first.
    pub closed spec fn days(self) -> Seq<u64> {
        self.day_multipliers_milli@
    }

    /// Well-formedness: one multiplier per day, weekdays in the 0.8x-1.2x
    /// band and weekend days in the 1.2x-1.8x band.
    pub open spec fn wf(self) -> bool {
        &&& self.days().len() == 7
        &&& forall|i: int| 0 <= i < 5 ==> 800 <= #[trigger] self.days()[i] < 1200
        &&& forall|i: int| 5 <= i < 7 ==> 1200 <= #[trigger] self.days()[i] < 1800
    }

    /// Draws a random but realistic weekly pattern: each weekday multiplier
    /// uniform in 0.8x-1.2x, each weekend multiplier in 1.2x-1.8x.
    pub fn generate_random() -> (r: WeeklyPattern)
        ensures
            r.wf(),
    {
        let mut days: Vec<u64> = Vec::new();
        let mut i: usize = 0;
        while i < 5
            invariant
                0 <= i <= 5,
                days@.len() == i,
                forall|j: int| 0 <= j < i ==> 800 <= #[trigger] days@[j] < 1200,
            decreases 5 - i,
        {
            let draw = rand_unit_ppm();
            proof {
                assert((draw as int) * 400 / (PPM as int) < 400 && (draw as int) * 400 / (
                PPM as int) >= 0) by (nonlinear_arith)
                    requires 0 <= draw < PPM as int;
            }
            days.push(800 + draw * 400 / PPM);
            i += 1;
        }
        let mut k: usize = 0;
        while k < 2
            invariant
                0 <= k <= 2,
                days@.len() == 5 + k,
                forall|j: int| 0 <= j < 5 ==> 800 <= #[trigger] days@[j] < 1200,
                forall|j: int| 5 <= j < 5 + k ==> 1200 <= #[trigger] days@[j] < 1800,
            decreases 2 - k,
        {
            let draw = rand_unit_ppm();
            proof {
                assert((draw as int) * 600 / (PPM as int) < 600 && (draw as int) * 600 / (
                PPM as int) >= 0) by (nonlinear_arith)
                    requires 0 <= draw < PPM as int;
            }
            days.push(1200 + draw * 600 / PPM);
            k += 1;
        }
        WeeklyPattern { day_multipliers_milli: days }
    }

    /// The multiplier of the day `now_ms` falls on.
    pub fn get_current_multiplier(&self, now_ms: u64) -> (r: u64)
        requires
            self.wf(),
        ensures
            r == self.days()[spec_day_of_week(now_ms)],
            800 <= r < 1800,
    {
        let day: u64 = ((now_ms / 1000) / 86400 + 3) % 7;
        proof {
            assert(0 <= spec_day_of_week(now_ms) < 7);
            assert(day == spec_day_of_week(now_ms));
        }
        self.day_multipliers_milli[day as usize]
    }
}

/// An organic wave pattern: the phase machine with a day-of-week multiplier
/// layered on top, and a random daily offset fixed at construction.
pub struct OrganicWavePattern {
    volume_manager: VolumeWaveManager,
    daily_cycle_offset_ms: u64,
    weekly_pattern: WeeklyPattern,
}

impl OrganicWavePattern {
    /// The phase machine inside.
    pub closed spec fn manager(self) -> VolumeWaveManager {
        self.volume_manager
    }

    /// The fixed daily offset.
    pub closed spec fn daily_offset(self) -> u64 {
        self.daily_cycle_offset_ms
    }

    /// The fixed weekly pattern.
    pub closed spec fn weekly(self) -> WeeklyPattern {
        self.weekly_pattern
    }

    /// Well-formedness of the parts.
    pub open spec fn wf(self) -> bool {
        &&& self.manager().wf()
        &&& self.weekly().wf()
        &&& self.daily_offset() < 24 * (WAVE_HOUR_MS as int)
    }

    /// Creates an organic pattern: a phase machine with the given dwells, a
    /// random daily offset below one day, and a random weekly pattern.
    pub fn new(active_hours: u64, slow_hours: u64, now_ms: u64) -> (r: OrganicWavePattern)
        requires
            active_hours * (WAVE_HOUR_MS as int) <= u64::MAX,
            slow_hours * (WAVE_HOUR_MS as int) <= u64::MAX,
        ensures
            r.wf(),
            r.manager().phase() == TradingPhase::Active || r.manager().phase()
                == TradingPhase::Slow,
            r.manager().phase_start() == now_ms,
    {
        let offset_hours = rand_below(24);
        OrganicWavePattern {
            volume_manager: VolumeWaveManager::new(active_hours, slow_hours, now_ms),
            daily_cycle_offset_ms: offset_hours * WAVE_HOUR_MS,
            weekly_pattern: WeeklyPattern::generate_random(),
        }
    }

    /// An interval with the organic patterns applied: the phase machine is
    /// lazily advanced exactly once, its natural interval is taken, and that
    /// is scaled by the fixed multiplier of the day `now_ms` falls on
    /// (capped at the machine word); at most four times the phase-scaled
    /// base.
    pub fn get_organic_interval(&mut self, base_interval_ms: u64, now_ms: u64) -> (r: u64)
        requires
            old(self).wf(),
        ensures
            final(self).wf(),
            final(self).weekly() == old(self).weekly(),
            final(self).daily_offset() == old(self).daily_offset(),
            final(self).manager().active_duration() == old(self).manager().active_duration(),
            final(self).manager().slow_duration() == old(self).manager().slow_duration(),
            final(self).manager().multipliers() == old(self).manager().multipliers(),
            spec_elapsed(old(self).manager().phase_start(), now_ms) < old(self).manager().spec_dwell() ==> final(self).manager() == old(self).manager(),
            spec_elapsed(old(self).manager().phase_start(), now_ms) >= old(self).manager().spec_dwell() ==> {
                &&& final(self).manager().phase_start() == now_ms
                &&& (old(self).manager().phase() == TradingPhase::Active ==> final(self).manager().phase() == TradingPhase::Burst || final(self).manager().phase()
                    == TradingPhase::Slow)
                &&& (old(self).manager().phase() == TradingPhase::Slow ==> final(self).manager().phase() == TradingPhase::Dormant || final(self).manager().phase()
                    == TradingPhase::Active)
                &&& (old(self).manager().phase() == TradingPhase::Burst ==> final(self).manager().phase() == TradingPhase::Slow)
                &&& (old(self).manager().phase() == TradingPhase::Dormant ==> final(self).manager().phase() == TradingPhase::Active)
            },
            exists|frac: int|
                {
                    &&& 0 <= frac < PPM as int
                    &&& r as int == ({
                        let natural = #[trigger] spec_natural_interval(
                            final(self).manager(),
                            base_interval_ms as int,
                            now_ms,
                            frac,
                        );
                        let scaled = natural * (old(self).weekly().days()[spec_day_of_week(
                            now_ms,
                        )] as int) / 1000;
                        if scaled > u64::MAX as int {
                            u64::MAX as int
                        } else {
                            scaled
                        }
                    })
                },
            r as int <= (base_interval_ms as int) * final(self).manager().spec_frequency_multiplier()
                * 4 / 1000,
    {
        let _phase = self.volume_manager.get_current_phase(now_ms);
        let base_with_phase = self.volume_manager.get_natural_interval(base_interval_ms, now_ms);
        let weekly_multiplier = self.weekly_pattern.get_current_multiplier(now_ms);
        proof {
            assert((base_with_phase as int) * (weekly_multiplier as int) <= u128::MAX as int)
                by (nonlinear_arith)
                requires 0 <= base_with_phase <= u64::MAX && 0 <= weekly_multiplier < 1800;
        }
        let wide: u128 = (base_with_phase as u128) * (weekly_multiplier as u128) / 1000;
        let capped: u64 = if wide > (u64::MAX as u128) {
            u64::MAX
        } else {
            wide as u64
        };
        proof {
            let n = base_with_phase as int;
            let w = weekly_multiplier as int;
            let pm = self.volume_manager.spec_frequency_multiplier();
            let b = base_interval_ms as int;
            assert(n * w <= n * 2000 && n * w >= 0) by (nonlinear_arith)
                requires 0 <= n && 0 <= w < 2000;
            assert(n * 2000 / 1000 == 2 * n) by (nonlinear_arith);
            assert(n * w / 1000 <= 2 * n) by (nonlinear_arith)
                requires n * w <= n * 2000 && n * w >= 0;
            assert(2 * (b * pm * 2 / 1000) <= b * pm * 4 / 1000) by (nonlinear_arith)
                requires b * pm >= 0;
            let f = choose|f: int|
                0 <= f < PPM as int && base_with_phase as int == #[trigger] spec_natural_interval(
                    self.volume_manager,
                    base_interval_ms as int,
                    now_ms,
                    f,
                );
            assert(capped as int == ({
                let natural = spec_natural_interval(
                    self.volume_manager,
                    base_interval_ms as int,
                    now_ms,
                    f,
                );
                let scaled = natural * w / 1000;
                if scaled > u64::MAX as int {
                    u64::MAX as int
                } else {
                    scaled
                }
            }));
        }
        capped
    }

    /// The phase machine's current wave information, as of `now_ms`.
    pub fn get_info(&self, now_ms: u64) -> (info: VolumeWaveInfo)
        ensures
            info.current_phase == self.manager().phase(),
            info.time_in_phase_ms == spec_elapsed(self.manager().phase_start(), now_ms),
            info.frequency_multiplier_milli == self.manager().spec_frequency_multiplier(),
            info.amount_multiplier_milli == self.manager().spec_amount_multiplier(),
    {
        self.volume_manager.get_wave_info(now_ms)
    }
}

/// The combined phase, hour and random multiplier stays below twice the
/// phase multiplier.
proof fn lemma_combined_multiplier_bound(pm: int, tm: int, rm: int)
    requires
        0 <= pm,
        700 <= tm <= 1500,
        800 <= rm < 1200,
    ensures
        pm * tm / 1000 * rm / 1000 <= 2 * pm,
        pm * tm / 1000 * rm / 1000 >= 0,
{
    let a = pm * tm / 1000;
    let c = a * rm / 1000;
    assert(1000 * a <= pm * tm && a >= 0) by (nonlinear_arith)
        requires a == pm * tm / 1000 && pm * tm >= 0;
    assert(pm * tm <= 1500 * pm) by (nonlinear_arith)
        requires 0 <= pm && tm <= 1500;
    assert(1000 * c <= a * rm && c >= 0) by (nonlinear_arith)
        requires c == a * rm / 1000 && a * rm >= 0 && a >= 0 && rm >= 0;
    assert(a * rm <= 1200 * a) by (nonlinear_arith)
        requires 0 <= a && rm <= 1200;
    assert(1000_000 * c <= 1200 * 1000 * a) by (nonlinear_arith)
        requires 1000 * c <= a * rm && a * rm <= 1200 * a && a >= 0;
    assert(1200 * 1000 * a <= 1200 * 1500 * pm) by (nonlinear_arith)
        requires 1000 * a <= pm * tm && pm * tm <= 1500 * pm;
    assert(c <= 2 * pm) by (nonlinear_arith)
        requires 1000_000 * c <= 1200 * 1500 * pm && 0 <= pm;
}

/// Scaling the base by a combined multiplier below twice the phase
/// multiplier keeps the result below twice the phase-scaled base.
proof fn lemma_scaled_base_bound(base: int, pm: int, combined: int)
    requires
        0 <= base,
        0 <= pm,
        0 <= combined <= 2 * pm,
    ensures
        base * combined / 1000 <= base * pm * 2 / 1000,
{
    assert(base * combined <= base * (2 * pm)) by (nonlinear_arith)
        requires 0 <= base && 0 <= combined <= 2 * pm;
    assert(base * (2 * pm) == base * pm * 2) by (nonlinear_arith);
    assert(base * combined / 1000 <= base * pm * 2 / 1000) by (nonlinear_arith)
        requires base * combined <= base * pm * 2 && base * combined >= 0;
}

} // verus!
