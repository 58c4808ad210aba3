//! The trading orchestrator: a deterministic pseudo-random source, per-side
//! planning of progressively scaled buys and sells, and the running flag and
//! progressive counters shared by the two trading loops.
//!
//! The embedder runs the loops themselves (the waits, the swap building
//! against the pool, the delivery) and drives this state with the outcomes:
//! a plan is asked for, the swap is attempted, and the result is recorded,
//! which advances the progressive counter only on success.

use vstd::prelude::*;
use crate::arith::mul_wide;

verus! {

/// Direction of a swap request.
#[derive(Debug, Clone, Copy, PartialEq, Eq, Structural)]
pub enum SwapDirection {
    Buy,
    Sell,
}

/// How the amount of a swap request is given: an absolute quantity in
/// lamports, or a share of current holdings in parts per million.
#[derive(Debug, Clone, Copy, PartialEq, Eq, Structural)]
pub enum SwapInType {
    Qty,
    Pct,
}

/// One swap request, built fresh per trade attempt.
#[derive(Debug, Clone)]
pub struct SwapConfig {
    pub mint: String,
    pub swap_direction: SwapDirection,
    pub in_type: SwapInType,
    pub amount_in: u64,
    pub slippage_bps: u64,
    pub max_buy_amount: u64,
}

/// Why the orchestrator refuses to start.
#[derive(Debug, Clone, Copy, PartialEq, Eq, Structural)]
pub enum TraderError {
    /// It is already running.
    AlreadyRunning,
}

/// Tunables for the orchestrator. Amounts in lamports, percentages in parts
/// per million, the progressive factor in thousandths.
#[derive(Debug, Clone, Copy, PartialEq, Eq, Structural)]
pub struct RandomTraderConfig {
    pub min_buy_amount_lamports: u64,
    pub max_buy_amount_lamports: u64,
    pub min_sell_percentage_ppm: u64,
    pub max_sell_percentage_ppm: u64,
    pub min_interval_seconds: u64,
    pub max_interval_seconds: u64,
    pub progressive_increase_factor_milli: u64,
    pub max_progressive_steps: u32,
}

impl RandomTraderConfig {
    /// The standard configuration: buys of 0.001 to 0.01 units of 10^9
    /// lamports, sells of 10 to 50 percent, intervals of 30 seconds to 5
    /// minutes, a fifth more per progressive step, at most ten steps.
    pub open spec fn spec_default() -> RandomTraderConfig {
        RandomTraderConfig {
            min_buy_amount_lamports: 1_000_000,
            max_buy_amount_lamports: 10_000_000,
            min_sell_percentage_ppm: 100_000,
            max_sell_percentage_ppm: 500_000,
            min_interval_seconds: 30,
            max_interval_seconds: 300,
            progressive_increase_factor_milli: 1200,
            max_progressive_steps: 10,
        }
    }
}

impl Default for RandomTraderConfig {
    /// The standard configuration.
    fn default() -> (r: Self)
        ensures
            r == RandomTraderConfig::spec_default(),
    {
        RandomTraderConfig {
            min_buy_amount_lamports: 1_000_000,
            max_buy_amount_lamports: 10_000_000,
            min_sell_percentage_ppm: 100_000,
            max_sell_percentage_ppm: 500_000,
            min_interval_seconds: 30,
            max_interval_seconds: 300,
            progressive_increase_factor_milli: 1200,
            max_progressive_steps: 10,
        }
    }
}

/// The linear congruential step: the counter value maps to
/// `(counter * 1103515245 + 12345) mod 2^64`, masked to 31 bits.
pub open spec fn spec_pseudo_random(counter: u64) -> u64 {
    vstd::wrapping::u64_specs::wrapping_add(
        vstd::wrapping::u64_specs::wrapping_mul(counter, 1103515245),
        12345,
    ) & 0x7fff_ffff
}

/// An amount scaled up by the progressive factor once per step, each step
/// in floor arithmetic and capped at the machine word.
pub open spec fn spec_progressive_scale(amount: int, factor_milli: int, steps: nat) -> int
    decreases steps,
{
    if steps == 0 {
        amount
    } else {
        let next = amount * factor_milli / 1000;
        let capped = if next > u64::MAX as int {
            u64::MAX as int
        } else {
            next
        };
        spec_progressive_scale(capped, factor_milli, (steps - 1) as nat)
    }
}

/// Applies the progressive factor `steps` times: the verified arithmetic
/// behind the plans' progressive sizing.
pub fn progressive_scale(amount: u64, factor_milli: u64, steps: u32) -> (r: u64)
    ensures
        r as int == spec_progressive_scale(amount as int, factor_milli as int, steps as nat),
{
    let mut a: u64 = amount;
    let mut i: u32 = 0;
    while i < steps
        invariant
            0 <= i <= steps,
            spec_progressive_scale(a as int, factor_milli as int, (steps - i) as nat)
                == spec_progressive_scale(amount as int, factor_milli as int, steps as nat),
        decreases steps - i,
    {
        let wide: u128 = mul_wide(a, factor_milli) / 1000;
        a = if wide > (u64::MAX as u128) {
            u64::MAX
        } else {
            wide as u64
        };
        i += 1;
    }
    a
}

/// The smaller of a progressive counter and the configured step bound.
pub open spec fn spec_capped_steps(count: u32, max_steps: u32) -> u32 {
    if count <= max_steps {
        count
    } else {
        max_steps
    }
}

/// The orchestrator state shared by the buy and sell loops.
pub struct RandomTrader {
    target_mint: String,
    is_running: bool,
    progressive_buy_count: u32,
    progressive_sell_count: u32,
    counter: u64,
}

impl RandomTrader {
    /// The target asset identifier.
    pub closed spec fn mint(self) -> Seq<char> {
        self.target_mint@
    }

    /// Whether the loops should keep running.
    pub closed spec fn running(self) -> bool {
        self.is_running
    }

    /// How many buys have delivered since the last reset.
    pub closed spec fn buy_count(self) -> u32 {
        self.progressive_buy_count
    }

    /// How many sells have delivered since the last reset.
    pub closed spec fn sell_count(self) -> u32 {
        self.progressive_sell_count
    }

    /// The state of the pseudo-random counter.
    pub closed spec fn counter(self) -> u64 {
        self.counter
    }

    /// A stopped orchestrator for the given target asset, with zeroed
    /// counters.
    pub fn new(target_mint: String) -> (r: RandomTrader)
        ensures
            r.mint() == target_mint@,
            !r.running(),
            r.buy_count() == 0,
            r.sell_count() == 0,
            r.counter() == 0,
    {
        RandomTrader {
            target_mint,
            is_running: false,
            progressive_buy_count: 0,
            progressive_sell_count: 0,
            counter: 0,
        }
    }

    /// The next pseudo-random value: the linear congruential step over the
    /// internal counter, which advances by one (wrapping).
    pub fn next_pseudo_random(&mut self) -> (r: u64)
        ensures
            r == spec_pseudo_random(old(self).counter()),
            final(self).counter() == vstd::wrapping::u64_specs::wrapping_add(
                old(self).counter(),
                1,
            ),
            final(self).mint() == old(self).mint(),
            final(self).running() == old(self).running(),
            final(self).buy_count() == old(self).buy_count(),
            final(self).sell_count() == old(self).sell_count(),
    {
        let c = self.counter;
        self.counter = c.wrapping_add(1);
        c.wrapping_mul(1103515245).wrapping_add(12345) & 0x7fff_ffff
    }

    /// A pseudo-random value in `[min, max)`, or `min` itself when the range
    /// is empty.
    pub fn random_in_range(&mut self, min: u64, max: u64) -> (r: u64)
        ensures
            min >= max ==> r == min && *final(self) == *old(self),
            min < max ==> {
                &&& r == min + (spec_pseudo_random(old(self).counter()) as int) % (max as int - min as int)
                &&& min <= r < max
                &&& final(self).counter() == vstd::wrapping::u64_specs::wrapping_add(
                    old(self).counter(),
                    1,
                )
            },
            final(self).mint() == old(self).mint(),
            final(self).running() == old(self).running(),
            final(self).buy_count() == old(self).buy_count(),
            final(self).sell_count() == old(self).sell_count(),
    {
        if min >= max {
            return min;
        }
        let range = max - min;
        let random = self.next_pseudo_random();
        min + random % range
    }

    /// Starts the orchestrator: fails without side effect when it is already
    /// running, otherwise sets the running flag for the loops to observe.
    pub fn start(&mut self) -> (r: Result<(), TraderError>)
        ensures
            old(self).running() ==> r == Result::<(), TraderError>::Err(
                TraderError::AlreadyRunning,
            ) && *final(self) == *old(self),
            !old(self).running() ==> {
                &&& r == Result::<(), TraderError>::Ok(())
                &&& final(self).running()
                &&& final(self).mint() == old(self).mint()
                &&& final(self).buy_count() == old(self).buy_count()
                &&& final(self).sell_count() == old(self).sell_count()
                &&& final(self).counter() == old(self).counter()
            },
    {
        if self.is_running {
            return Err(TraderError::AlreadyRunning);
        }
        self.is_running = true;
        Ok(())
    }

    /// Stops the orchestrator; each loop observes the flag within one wait
    /// interval.
    pub fn stop(&mut self)
        ensures
            !final(self).running(),
            final(self).mint() == old(self).mint(),
            final(self).buy_count() == old(self).buy_count(),
            final(self).sell_count() == old(self).sell_count(),
            final(self).counter() == old(self).counter(),
    {
        self.is_running = false;
    }

    /// Whether the orchestrator is running.
    pub fn is_running(&self) -> (r: bool)
        ensures
            r == self.running(),
    {
        self.is_running
    }

    /// The wait before the next trade of a loop, in seconds: the next
    /// pseudo-random value mapped into the configured interval bounds, or
    /// the lower bound itself when the range is empty.
    pub fn next_interval_seconds(&mut self, config: &RandomTraderConfig) -> (r: u64)
        ensures
            config.min_interval_seconds < config.max_interval_seconds ==> {
                &&& config.min_interval_seconds <= r < config.max_interval_seconds
                &&& r == config.min_interval_seconds + (spec_pseudo_random(
                    old(self).counter(),
                ) as int) % (config.max_interval_seconds as int
                    - config.min_interval_seconds as int)
                &&& final(self).counter() == vstd::wrapping::u64_specs::wrapping_add(
                    old(self).counter(),
                    1,
                )
            },
            config.min_interval_seconds >= config.max_interval_seconds ==> r
                == config.min_interval_seconds && *final(self) == *old(self),
            final(self).mint() == old(self).mint(),
            final(self).running() == old(self).running(),
            final(self).buy_count() == old(self).buy_count(),
            final(self).sell_count() == old(self).sell_count(),
    {
        self.random_in_range(config.min_interval_seconds, config.max_interval_seconds)
    }

    /// Plans the next buy: a pseudo-random base amount within the configured
    /// range, scaled by the progressive factor once per delivered buy (the
    /// counter is capped at the configured maximum of steps). The plan asks
    /// for a quantity buy of the target asset at 10 percent slippage.
    pub fn plan_buy(&mut self, config: &RandomTraderConfig) -> (plan: SwapConfig)
        ensures
            plan.swap_direction == SwapDirection::Buy,
            plan.in_type == SwapInType::Qty,
            plan.mint@ == old(self).mint(),
            plan.slippage_bps == 1000,
            plan.max_buy_amount == plan.amount_in,
            ({
                let base = if config.min_buy_amount_lamports < config.max_buy_amount_lamports {
                    config.min_buy_amount_lamports + (spec_pseudo_random(old(self).counter()) as int) % (
                    config.max_buy_amount_lamports as int - config.min_buy_amount_lamports as int)
                } else {
                    config.min_buy_amount_lamports as int
                };
                plan.amount_in as int == spec_progressive_scale(
                    base,
                    config.progressive_increase_factor_milli as int,
                    spec_capped_steps(old(self).buy_count(), config.max_progressive_steps) as nat,
                )
            }),
            final(self).mint() == old(self).mint(),
            final(self).running() == old(self).running(),
            final(self).buy_count() == old(self).buy_count(),
            final(self).sell_count() == old(self).sell_count(),
    {
        let steps: u32 = if self.progressive_buy_count <= config.max_progressive_steps {
            self.progressive_buy_count
        } else {
            config.max_progressive_steps
        };
        let base = self.random_in_range(
            config.min_buy_amount_lamports,
            config.max_buy_amount_lamports,
        );
        let amount = progressive_scale(base, config.progressive_increase_factor_milli, steps);
        SwapConfig {
            mint: self.target_mint.clone(),
            swap_direction: SwapDirection::Buy,
            in_type: SwapInType::Qty,
            amount_in: amount,
            slippage_bps: 1000,
            max_buy_amount: amount,
        }
    }

    /// Plans the next sell: a pseudo-random base share within the configured
    /// range, scaled by the progressive factor once per delivered sell
    /// (capped at the maximum of steps), and never above the whole holding.
    /// The plan asks for a percentage sell of the target asset at 10 percent
    /// slippage.
    pub fn plan_sell(&mut self, config: &RandomTraderConfig) -> (plan: SwapConfig)
        ensures
            plan.swap_direction == SwapDirection::Sell,
            plan.in_type == SwapInType::Pct,
            plan.mint@ == old(self).mint(),
            plan.slippage_bps == 1000,
            plan.max_buy_amount == 0,
            plan.amount_in <= crate::rng::PPM,
            ({
                let base = if config.min_sell_percentage_ppm < config.max_sell_percentage_ppm {
                    config.min_sell_percentage_ppm + (spec_pseudo_random(old(self).counter()) as int) % (
                    config.max_sell_percentage_ppm as int - config.min_sell_percentage_ppm as int)
                } else {
                    config.min_sell_percentage_ppm as int
                };
                let scaled = spec_progressive_scale(
                    base,
                    config.progressive_increase_factor_milli as int,
                    spec_capped_steps(old(self).sell_count(), config.max_progressive_steps) as nat,
                );
                plan.amount_in as int == if scaled > crate::rng::PPM as int {
                    crate::rng::PPM as int
                } else {
                    scaled
                }
            }),
            final(self).mint() == old(self).mint(),
            final(self).running() == old(self).running(),
            final(self).buy_count() == old(self).buy_count(),
            final(self).sell_count() == old(self).sell_count(),
    {
        let steps: u32 = if self.progressive_sell_count <= config.max_progressive_steps {
            self.progressive_sell_count
        } else {
            config.max_progressive_steps
        };
        let base = self.random_in_range(
            config.min_sell_percentage_ppm,
            config.max_sell_percentage_ppm,
        );
        let scaled = progressive_scale(base, config.progressive_increase_factor_milli, steps);
        let pct = if scaled > crate::rng::PPM {
            crate::rng::PPM
        } else {
            scaled
        };
        SwapConfig {
            mint: self.target_mint.clone(),
            swap_direction: SwapDirection::Sell,
            in_type: SwapInType::Pct,
            amount_in: pct,
            slippage_bps: 1000,
            max_buy_amount: 0,
        }
    }

    /// Records the outcome of a planned buy: a delivered buy advances the
    /// progressive buy counter (saturating); a failure leaves it alone.
    pub fn record_buy_result(&mut self, success: bool)
        ensures
            success ==> final(self).buy_count() == (if old(self).buy_count() == u32::MAX {
                u32::MAX as int
            } else {
                old(self).buy_count() + 1
            }),
            !success ==> final(self).buy_count() == old(self).buy_count(),
            final(self).mint() == old(self).mint(),
            final(self).running() == old(self).running(),
            final(self).sell_count() == old(self).sell_count(),
            final(self).counter() == old(self).counter(),
    {
        if success {
            self.progressive_buy_count = self.progressive_buy_count.saturating_add(1);
        }
    }

    /// Records the outcome of a planned sell: a delivered sell advances the
    /// progressive sell counter (saturating); a failure leaves it alone.
    pub fn record_sell_result(&mut self, success: bool)
        ensures
            success ==> final(self).sell_count() == (if old(self).sell_count() == u32::MAX {
                u32::MAX as int
            } else {
                old(self).sell_count() + 1
            }),
            !success ==> final(self).sell_count() == old(self).sell_count(),
            final(self).mint() == old(self).mint(),
            final(self).running() == old(self).running(),
            final(self).buy_count() == old(self).buy_count(),
            final(self).counter() == old(self).counter(),
    {
        if success {
            self.progressive_sell_count = self.progressive_sell_count.saturating_add(1);
        }
    }

    /// Sets both progressive counters back to zero, independently of the
    /// running state.
    pub fn reset_progressive_counters(&mut self)
        ensures
            final(self).buy_count() == 0,
            final(self).sell_count() == 0,
            final(self).mint() == old(self).mint(),
            final(self).running() == old(self).running(),
            final(self).counter() == old(self).counter(),
    {
        self.progressive_buy_count = 0;
        self.progressive_sell_count = 0;
    }

    /// The progressive buy and sell counters.
    pub fn get_progressive_counts(&self) -> (r: (u32, u32))
        ensures
            r.0 == self.buy_count(),
            r.1 == self.sell_count(),
    {
        (self.progressive_buy_count, self.progressive_sell_count)
    }
}

} // verus!
