//! Price monitoring: a bounded, time-ordered price history, detection of
//! sharp short-window rises with a time-based throttle, trend classification
//! and volatility.
//!
//! Prices are fixed-point integers no larger than [`PRICE_MAX`]; percentage
//! changes and thresholds are in parts per million; timestamps in
//! milliseconds, supplied by the caller and non-decreasing across calls.

use vstd::prelude::*;
use std::collections::VecDeque;
use crate::rng::PPM;

verus! {

/// Largest representable price, so that sums and squared deviations fit
/// the machine words they are computed in.
pub const PRICE_MAX: u64 = 1_000_000_000_000;

/// Only points observed within this trailing window count towards throttling.
pub const THROTTLE_WINDOW_MS: u64 = 600_000;

/// How long the throttle stays on after activation with no fresh rise.
pub const DEFAULT_THROTTLE_DURATION_MS: u64 = 1_800_000;

/// Points older than this are evicted by the cleanup operation.
pub const RETENTION_MS: u64 = 86_400_000;

/// Trading is slowed by this factor (in thousandths) while throttled.
pub const THROTTLE_MULTIPLIER_MILLI: u64 = 3000;

/// The neutral multiplier (in thousandths) while not throttled.
pub const UNIT_MILLI: u64 = 1000;

/// Strong trend band: a change beyond 5 percent, in parts per million.
pub const STRONG_TREND_PPM: u64 = 50_000;

/// Mild trend band: a change beyond 2 percent, in parts per million.
pub const MILD_TREND_PPM: u64 = 20_000;

/// How many trailing points the trend classification looks at.
pub const TREND_POINTS: usize = 5;

/// How many trailing points the volatility looks at, at most.
pub const VOLATILITY_POINTS: usize = 10;

/// One observed price: price level, observation time, traded volume.
#[derive(Debug, Clone, Copy, PartialEq, Eq, Structural)]
pub struct PricePoint {
    pub price: u64,
    pub timestamp_ms: u64,
    pub volume: u64,
}

/// Classification of the recent price movement.
#[derive(Debug, Clone, Copy, PartialEq, Eq, Structural)]
pub enum PriceTrend {
    StrongUpward,
    Upward,
    Neutral,
    Downward,
    StrongDownward,
}

/// Summary statistics over the stored history.
#[derive(Debug, Clone, Copy, PartialEq, Eq, Structural)]
pub struct PriceStats {
    pub current_price: u64,
    pub min_price: u64,
    pub max_price: u64,
    pub avg_price: u64,
    pub volatility: u64,
    pub trend: PriceTrend,
    pub data_points: usize,
}

impl PriceStats {
    /// The statistics of an empty history.
    pub open spec fn spec_default() -> PriceStats {
        PriceStats {
            current_price: 0,
            min_price: 0,
            max_price: 0,
            avg_price: 0,
            volatility: 0,
            trend: PriceTrend::Neutral,
            data_points: 0,
        }
    }
}

impl Default for PriceStats {
    /// The statistics of an empty history.
    fn default() -> (r: Self)
        ensures
            r == PriceStats::spec_default(),
    {
        PriceStats {
            current_price: 0,
            min_price: 0,
            max_price: 0,
            avg_price: 0,
            volatility: 0,
            trend: PriceTrend::Neutral,
            data_points: 0,
        }
    }
}

/// True when the history is ordered by observation time, oldest first.
pub open spec fn sorted_by_time(h: Seq<PricePoint>) -> bool {
    forall|i: int, j: int|
        0 <= i <= j < h.len() ==> #[trigger] h[i].timestamp_ms <= #[trigger] h[j].timestamp_ms
}

/// How many leading points were observed strictly before `bound`.
pub open spec fn count_leading_older(h: Seq<PricePoint>, bound: int) -> int
    decreases h.len(),
{
    if h.len() == 0 {
        0
    } else if h[0].timestamp_ms >= bound {
        0
    } else {
        1 + count_leading_older(h.drop_first(), bound)
    }
}

/// A point is inside the trailing throttle window at time `now`.
pub open spec fn in_window(p: PricePoint, now: u64) -> bool {
    p.timestamp_ms + THROTTLE_WINDOW_MS > now
}

/// Index of the first point inside the throttle window (the history length
/// when none is). For a time-ordered history the in-window points are
/// exactly the suffix starting here.
pub open spec fn window_cut(h: Seq<PricePoint>, now: u64) -> int {
    count_leading_older(h, now - THROTTLE_WINDOW_MS + 1)
}

/// The change from `base` to `val` exceeds `thr_ppm` parts per million of
/// `base`, strictly. A rise from a zero base to a positive value counts as
/// exceeding every threshold.
pub open spec fn pct_rise_exceeds(base: int, val: int, thr_ppm: int) -> bool {
    val > base && (val - base) * (PPM as int) > thr_ppm * base
}

/// The fall from `base` to `val` exceeds `thr_ppm` parts per million of
/// `base`, strictly.
pub open spec fn pct_fall_exceeds(base: int, val: int, thr_ppm: int) -> bool {
    base > val && (base - val) * (PPM as int) > thr_ppm * base
}

/// The throttle state is recomputed only when at least 2 points stand
/// inside the trailing window.
pub open spec fn throttle_update_applies(h: Seq<PricePoint>, now: u64) -> bool {
    h.len() - window_cut(h, now) >= 2
}

/// A qualifying rise: the change from the earliest to the latest in-window
/// point exceeds the threshold.
pub open spec fn rise_detected(h: Seq<PricePoint>, now: u64, thr_ppm: u64) -> bool
    recommends
        throttle_update_applies(h, now),
{
    let k = window_cut(h, now);
    pct_rise_exceeds(h[k].price as int, h[h.len() - 1].price as int, thr_ppm as int)
}

/// The throttle flag after one recomputation: on iff a qualifying rise is
/// observed, or it was on and less than the cool-down duration has elapsed
/// since activation (when the update applies at all).
pub open spec fn throttle_flag_after(
    h: Seq<PricePoint>,
    now: u64,
    thr_ppm: u64,
    dur_ms: u64,
    flag: bool,
    started: Option<u64>,
) -> bool {
    if !throttle_update_applies(h, now) {
        flag
    } else if rise_detected(h, now, thr_ppm) {
        true
    } else if flag && started is Some && now - started->0 >= dur_ms {
        false
    } else {
        flag
    }
}

/// The activation time after one recomputation: set when the throttle newly
/// activates, kept (not refreshed) while it stays on, cleared when the
/// cool-down deactivates it.
pub open spec fn throttle_started_after(
    h: Seq<PricePoint>,
    now: u64,
    thr_ppm: u64,
    dur_ms: u64,
    flag: bool,
    started: Option<u64>,
) -> Option<u64> {
    if !throttle_update_applies(h, now) {
        started
    } else if rise_detected(h, now, thr_ppm) {
        if flag {
            started
        } else {
            Some(now)
        }
    } else if flag && started is Some && now - started->0 >= dur_ms {
        None
    } else {
        started
    }
}

/// The history after recording one point: the point is appended and the
/// oldest points are dropped until at most `max` remain.
pub open spec fn spec_trimmed(s: Seq<PricePoint>, max: int) -> Seq<PricePoint> {
    if s.len() <= max {
        s
    } else {
        s.skip(s.len() - max)
    }
}

proof fn lemma_count_leading_older_scan(h: Seq<PricePoint>, bound: int, i: int)
    requires
        0 <= i <= h.len(),
        forall|j: int| 0 <= j < i ==> #[trigger] h[j].timestamp_ms < bound,
        i < h.len() ==> h[i].timestamp_ms >= bound,
    ensures
        count_leading_older(h, bound) == i,
    decreases h.len(),
{
    if h.len() == 0 {
    } else if h[0].timestamp_ms >= bound {
        assert(i == 0);
    } else {
        assert(h[0].timestamp_ms < bound);
        assert(i >= 1);
        let t = h.drop_first();
        assert forall|j: int| 0 <= j < i - 1 implies #[trigger] t[j].timestamp_ms < bound by {
            assert(t[j] == h[j + 1]);
        }
        if i - 1 < t.len() {
            assert(t[i - 1] == h[i]);
        }
        lemma_count_leading_older_scan(t, bound, i - 1);
    }
}

/// The trend over the last [`TREND_POINTS`] points: the percentage change
/// from the fifth-from-last to the last price, classified by the two fixed
/// bands. Fewer than five points give a neutral trend.
pub open spec fn spec_trend(h: Seq<PricePoint>) -> PriceTrend {
    if h.len() < TREND_POINTS {
        PriceTrend::Neutral
    } else {
        let f = h[h.len() - TREND_POINTS].price as int;
        let l = h[h.len() - 1].price as int;
        if pct_rise_exceeds(f, l, STRONG_TREND_PPM as int) {
            PriceTrend::StrongUpward
        } else if pct_rise_exceeds(f, l, MILD_TREND_PPM as int) {
            PriceTrend::Upward
        } else if pct_fall_exceeds(f, l, STRONG_TREND_PPM as int) {
            PriceTrend::StrongDownward
        } else if pct_fall_exceeds(f, l, MILD_TREND_PPM as int) {
            PriceTrend::Downward
        } else {
            PriceTrend::Neutral
        }
    }
}

/// Sum of a sequence of integers.
pub open spec fn spec_sum_int(s: Seq<int>) -> int
    decreases s.len(),
{
    if s.len() == 0 {
        0
    } else {
        spec_sum_int(s.drop_last()) + s.last()
    }
}

/// Sum of the squared deviations from `mean`.
pub open spec fn spec_sq_dev_sum(s: Seq<int>, mean: int) -> int
    decreases s.len(),
{
    if s.len() == 0 {
        0
    } else {
        spec_sq_dev_sum(s.drop_last(), mean) + (s.last() - mean) * (s.last() - mean)
    }
}

/// The last `m` prices of the history, oldest of them first.
pub open spec fn last_prices(h: Seq<PricePoint>, m: int) -> Seq<int>
    recommends
        0 <= m <= h.len(),
{
    Seq::new(m as nat, |i: int| h[h.len() - m + i].price as int)
}

/// All prices of the history, in order.
pub open spec fn spec_prices(h: Seq<PricePoint>) -> Seq<int> {
    Seq::new(h.len(), |i: int| h[i].price as int)
}

/// Smallest element of a non-empty integer sequence.
pub open spec fn spec_seq_min(s: Seq<int>) -> int
    recommends
        s.len() > 0,
    decreases s.len(),
{
    if s.len() <= 1 {
        s[0]
    } else {
        let m = spec_seq_min(s.drop_last());
        if s.last() < m {
            s.last()
        } else {
            m
        }
    }
}

/// Largest element of a non-empty integer sequence.
pub open spec fn spec_seq_max(s: Seq<int>) -> int
    recommends
        s.len() > 0,
    decreases s.len(),
{
    if s.len() <= 1 {
        s[0]
    } else {
        let m = spec_seq_max(s.drop_last());
        if s.last() > m {
            s.last()
        } else {
            m
        }
    }
}

/// The volatility in parts per million: the population standard deviation of
/// the last up-to-[`VOLATILITY_POINTS`] prices, divided by their mean, both
/// in floor integer arithmetic. Fewer than 3 points, or a zero mean, give 0.
pub open spec fn spec_volatility_ppm(h: Seq<PricePoint>) -> int {
    if h.len() < 3 {
        0
    } else {
        let m: int = if h.len() >= VOLATILITY_POINTS { VOLATILITY_POINTS as int } else {
            h.len() as int
        };
        let s = last_prices(h, m);
        let mean = spec_sum_int(s) / m;
        if mean == 0 {
            0
        } else {
            let var = spec_sq_dev_sum(s, mean) / m;
            crate::arith::spec_isqrt(var) * (PPM as int) / mean
        }
    }
}

/// Decides [`in_window`] executably.
fn point_in_window(p: &PricePoint, now_ms: u64) -> (r: bool)
    ensures
        r == in_window(*p, now_ms),
{
    (p.timestamp_ms as u128) + (THROTTLE_WINDOW_MS as u128) > (now_ms as u128)
}

/// Whether a point has fallen out of the retention horizon at `now_ms`.
fn point_stale(p: &PricePoint, now_ms: u64) -> (r: bool)
    ensures
        r == (p.timestamp_ms + RETENTION_MS < now_ms),
{
    (p.timestamp_ms as u128) + (RETENTION_MS as u128) < (now_ms as u128)
}

/// Monitors price observations and throttles trading after sharp rises.
pub struct PriceMonitor {
    price_history: VecDeque<PricePoint>,
    max_history_size: usize,
    price_change_threshold_ppm: u64,
    throttle_duration_ms: u64,
    last_throttle_time_ms: Option<u64>,
    is_throttling: bool,
}

impl PriceMonitor {
    /// The stored history, oldest point first.
    pub closed spec fn history(self) -> Seq<PricePoint> {
        self.price_history@
    }

    /// The configured bound on the history length.
    pub closed spec fn max_history(self) -> int {
        self.max_history_size as int
    }

    /// The configured rise threshold, in parts per million.
    pub closed spec fn threshold_ppm(self) -> u64 {
        self.price_change_threshold_ppm
    }

    /// The configured cool-down duration, in milliseconds.
    pub closed spec fn throttle_duration(self) -> u64 {
        self.throttle_duration_ms
    }

    /// Whether the throttle is currently on.
    pub closed spec fn throttling(self) -> bool {
        self.is_throttling
    }

    /// When the throttle was activated, while it is on.
    pub closed spec fn throttle_started(self) -> Option<u64> {
        self.last_throttle_time_ms
    }

    /// Well-formedness: the history is time-ordered, within its bound, holds
    /// representable prices, and the activation time is recorded exactly
    /// while the throttle is on.
    pub open spec fn wf(self) -> bool {
        &&& sorted_by_time(self.history())
        &&& self.history().len() <= self.max_history()
        &&& forall|i: int|
            0 <= i < self.history().len() ==> (#[trigger] self.history()[i]).price <= PRICE_MAX
        &&& self.throttling() <==> self.throttle_started() is Some
    }

    /// Creates a monitor with the given history bound and rise threshold
    /// (parts per million), with the default cool-down duration.
    pub fn new(max_history_size: usize, price_change_threshold_ppm: u64) -> (m: PriceMonitor)
        ensures
            m.wf(),
            m.history() == Seq::<PricePoint>::empty(),
            m.max_history() == max_history_size,
            m.threshold_ppm() == price_change_threshold_ppm,
            m.throttle_duration() == DEFAULT_THROTTLE_DURATION_MS,
            !m.throttling(),
            m.throttle_started() is None,
    {
        PriceMonitor {
            price_history: VecDeque::with_capacity(max_history_size),
            max_history_size,
            price_change_threshold_ppm,
            throttle_duration_ms: DEFAULT_THROTTLE_DURATION_MS,
            last_throttle_time_ms: None,
            is_throttling: false,
        }
    }

    /// Whether trading is currently throttled.
    pub fn is_throttling(&self) -> (r: bool)
        ensures
            r == self.throttling(),
    {
        self.is_throttling
    }

    /// The trading slow-down multiplier, in thousandths: 3x while throttled,
    /// 1x otherwise.
    pub fn get_throttling_multiplier(&self) -> (r: u64)
        ensures
            r == if self.throttling() {
                THROTTLE_MULTIPLIER_MILLI as int
            } else {
                UNIT_MILLI as int
            },
    {
        if self.is_throttling {
            THROTTLE_MULTIPLIER_MILLI
        } else {
            UNIT_MILLI
        }
    }

    /// Recomputes the throttle state from the in-window points, as of `now_ms`.
    fn check_and_update_throttling(&mut self, now_ms: u64)
        requires
            old(self).wf(),
        ensures
            final(self).wf(),
            final(self).history() == old(self).history(),
            final(self).max_history() == old(self).max_history(),
            final(self).threshold_ppm() == old(self).threshold_ppm(),
            final(self).throttle_duration() == old(self).throttle_duration(),
            final(self).throttling() == throttle_flag_after(
                old(self).history(),
                now_ms,
                old(self).threshold_ppm(),
                old(self).throttle_duration(),
                old(self).throttling(),
                old(self).throttle_started(),
            ),
            final(self).throttle_started() == throttle_started_after(
                old(self).history(),
                now_ms,
                old(self).threshold_ppm(),
                old(self).throttle_duration(),
                old(self).throttling(),
                old(self).throttle_started(),
            ),
    {
        let ghost h = self.price_history@;
        let n = self.price_history.len();
        // The in-window points of a time-ordered history are a suffix; find
        // where it starts.
        let ghost bound = now_ms - THROTTLE_WINDOW_MS + 1;
        let mut k: usize = 0;
        while k < n && !point_in_window(&self.price_history[k], now_ms)
            invariant
                0 <= k <= n,
                n == h.len(),
                self.price_history@ == h,
                forall|j: int| 0 <= j < k ==> (#[trigger] h[j]).timestamp_ms < bound,
            decreases n - k,
        {
            proof {
                assert(!in_window(h[k as int], now_ms));
                assert(h[k as int].timestamp_ms < bound);
            }
            k += 1;
        }
        proof {
            if k < n {
                assert(in_window(h[k as int], now_ms));
                assert(h[k as int].timestamp_ms >= bound);
            }
            lemma_count_leading_older_scan(h, bound, k as int);
            assert(window_cut(h, now_ms) == k);
        }
        if n - k < 2 {
            assert(!throttle_update_applies(h, now_ms));
            return;
        }
        assert(throttle_update_applies(h, now_ms));
        let earliest: u64 = self.price_history[k].price;
        let latest: u64 = self.price_history[n - 1].price;
        let rise = latest > earliest && crate::arith::mul_wide(latest - earliest, PPM)
            > crate::arith::mul_wide(self.price_change_threshold_ppm, earliest);
        assert(rise == rise_detected(h, now_ms, self.price_change_threshold_ppm));
        if rise {
            if !self.is_throttling {
                self.is_throttling = true;
                self.last_throttle_time_ms = Some(now_ms);
            }
        } else if self.is_throttling {
            if let Some(start) = self.last_throttle_time_ms {
                if now_ms >= start && now_ms - start >= self.throttle_duration_ms {
                    self.is_throttling = false;
                    self.last_throttle_time_ms = None;
                }
            }
        }
    }

    /// Records one price observation at `now_ms`: appends it, drops the
    /// oldest points down to the history bound, and recomputes the throttle
    /// state from the new history.
    pub fn add_price_point(&mut self, price: u64, volume: u64, now_ms: u64)
        requires
            old(self).wf(),
            price <= PRICE_MAX,
            old(self).history().len() > 0 ==> now_ms >= old(self).history().last().timestamp_ms,
        ensures
            final(self).wf(),
            final(self).history() == spec_trimmed(
                old(self).history().push(
                    PricePoint { price, timestamp_ms: now_ms, volume },
                ),
                old(self).max_history(),
            ),
            final(self).history().len() <= old(self).max_history(),
            final(self).max_history() == old(self).max_history(),
            final(self).threshold_ppm() == old(self).threshold_ppm(),
            final(self).throttle_duration() == old(self).throttle_duration(),
            final(self).throttling() == throttle_flag_after(
                final(self).history(),
                now_ms,
                old(self).threshold_ppm(),
                old(self).throttle_duration(),
                old(self).throttling(),
                old(self).throttle_started(),
            ),
            final(self).throttle_started() == throttle_started_after(
                final(self).history(),
                now_ms,
                old(self).threshold_ppm(),
                old(self).throttle_duration(),
                old(self).throttling(),
                old(self).throttle_started(),
            ),
    {
        let ghost oldh = self.price_history@;
        let point = PricePoint { price, timestamp_ms: now_ms, volume };
        self.price_history.push_back(point);
        let ghost pushed = self.price_history@;
        proof {
            assert forall|i: int, j: int| 0 <= i <= j < pushed.len() implies (
            #[trigger] pushed[i]).timestamp_ms <= (#[trigger] pushed[j]).timestamp_ms by {
                if j < pushed.len() - 1 {
                    assert(pushed[i] == oldh[i] && pushed[j] == oldh[j]);
                } else if i < pushed.len() - 1 {
                    assert(pushed[i] == oldh[i]);
                    assert(oldh[i].timestamp_ms <= oldh[oldh.len() - 1].timestamp_ms);
                }
            }
            assert(sorted_by_time(pushed));
            assert forall|i: int| 0 <= i < pushed.len() implies (#[trigger] pushed[i]).price
                <= PRICE_MAX by {
                if i < pushed.len() - 1 {
                    assert(pushed[i] == oldh[i]);
                }
            }
        }
        while self.price_history.len() > self.max_history_size
            invariant
                self.price_history@ == pushed.skip(pushed.len() - self.price_history@.len()),
                self.price_history@.len() <= pushed.len(),
                pushed.len() > self.price_history@.len() ==> self.price_history@.len()
                    >= self.max_history_size,
                self.max_history_size == old(self).max_history_size,
                self.price_change_threshold_ppm == old(self).price_change_threshold_ppm,
                self.throttle_duration_ms == old(self).throttle_duration_ms,
                self.last_throttle_time_ms == old(self).last_throttle_time_ms,
                self.is_throttling == old(self).is_throttling,
            decreases self.price_history@.len(),
        {
            self.price_history.pop_front();
            proof {
                assert(self.price_history@ =~= pushed.skip(
                    pushed.len() - self.price_history@.len(),
                ));
            }
        }
        proof {
            let cur = self.price_history@;
            let d = pushed.len() - cur.len();
            assert(cur =~= spec_trimmed(pushed, self.max_history_size as int));
            assert forall|i: int, j: int| 0 <= i <= j < cur.len() implies (
            #[trigger] cur[i]).timestamp_ms <= (#[trigger] cur[j]).timestamp_ms by {
                assert(cur[i] == pushed[d + i] && cur[j] == pushed[d + j]);
            }
            assert forall|i: int| 0 <= i < cur.len() implies (#[trigger] cur[i]).price
                <= PRICE_MAX by {
                assert(cur[i] == pushed[d + i]);
            }
            assert(self.wf());
        }
        self.check_and_update_throttling(now_ms);
    }

    /// Classifies the recent price movement into the five trend bands.
    pub fn get_price_trend(&self) -> (r: PriceTrend)
        ensures
            r == spec_trend(self.history()),
    {
        let n = self.price_history.len();
        if n < TREND_POINTS {
            return PriceTrend::Neutral;
        }
        let f: u64 = self.price_history[n - TREND_POINTS].price;
        let l: u64 = self.price_history[n - 1].price;
        if l > f && crate::arith::mul_wide(l - f, PPM) > crate::arith::mul_wide(
            STRONG_TREND_PPM,
            f,
        ) {
            PriceTrend::StrongUpward
        } else if l > f && crate::arith::mul_wide(l - f, PPM) > crate::arith::mul_wide(
            MILD_TREND_PPM,
            f,
        ) {
            PriceTrend::Upward
        } else if f > l && crate::arith::mul_wide(f - l, PPM) > crate::arith::mul_wide(
            STRONG_TREND_PPM,
            f,
        ) {
            PriceTrend::StrongDownward
        } else if f > l && crate::arith::mul_wide(f - l, PPM) > crate::arith::mul_wide(
            MILD_TREND_PPM,
            f,
        ) {
            PriceTrend::Downward
        } else {
            PriceTrend::Neutral
        }
    }

    /// The coefficient of variation of the recent prices, in parts per
    /// million: standard deviation over mean of the last up-to-10 points.
    pub fn get_volatility(&self) -> (r: u64)
        requires
            self.wf(),
        ensures
            r as int == spec_volatility_ppm(self.history()),
    {
        let ghost h = self.price_history@;
        let n = self.price_history.len();
        if n < 3 {
            return 0;
        }
        let m: usize = if n >= VOLATILITY_POINTS {
            VOLATILITY_POINTS
        } else {
            n
        };
        let ghost s = last_prices(h, m as int);
        let start = n - m;
        let mut sum: u64 = 0;
        let mut i: usize = 0;
        while i < m
            invariant
                0 <= i <= m,
                sum == spec_sum_int(s.subrange(0, i as int)),
                sum <= i * (PRICE_MAX as int),
            decreases m - i,
        {
            let p = self.price_history[start + i].price;
            proof {
                assert(h[start + i].price <= PRICE_MAX);
                assert(s[i as int] == h[h.len() - m + i].price as int);
                assert(s.subrange(0, i + 1).drop_last() =~= s.subrange(0, i as int));
                assert(s.subrange(0, i + 1).last() == s[i as int]);
            }
            sum += p;
            i += 1;
        }
        proof {
            assert(s.subrange(0, m as int) =~= s);
        }
        let mean: u64 = sum / (m as u64);
        proof {
            assert(mean <= PRICE_MAX) by (nonlinear_arith)
                requires
                    mean == sum as int / m as int,
                    sum <= m * (PRICE_MAX as int),
                    3 <= m,
            ;
        }
        let mut sq: u128 = 0;
        let mut j: usize = 0;
        while j < m
            invariant
                0 <= j <= m,
                sq == spec_sq_dev_sum(s.subrange(0, j as int), mean as int),
                sq <= j * 1_000_000_000_000_000_000_000_000,
            decreases m - j,
        {
            let p = self.price_history[start + j].price;
            let d: u64 = if p >= mean {
                p - mean
            } else {
                mean - p
            };
            proof {
                assert(h[start + j].price <= PRICE_MAX);
                assert(s[j as int] == h[h.len() - m + j].price as int);
                assert(s.subrange(0, j + 1).drop_last() =~= s.subrange(0, j as int));
                assert(s.subrange(0, j + 1).last() == s[j as int]);
                assert((s[j as int] - mean) * (s[j as int] - mean) == (d as int) * (d as int))
                    by (nonlinear_arith)
                    requires
                        d == if s[j as int] >= mean { s[j as int] - mean } else {
                            mean - s[j as int]
                        },
                ;
                assert((d as int) * (d as int) <= 1_000_000_000_000_000_000_000_000)
                    by (nonlinear_arith)
                    requires 0 <= d <= 1_000_000_000_000;
            }
            let dd = crate::arith::mul_wide(d, d);
            sq += dd;
            j += 1;
        }
        proof {
            assert(s.subrange(0, m as int) =~= s);
        }
        if mean == 0 {
            return 0;
        }
        let var: u128 = sq / (m as u128);
        proof {
            assert(var <= 10_000_000_000_000_000_000_000_000) by (nonlinear_arith)
                requires
                    var == sq as int / m as int,
                    sq <= 10 * 1_000_000_000_000_000_000_000_000,
                    3 <= m,
            ;
        }
        let sroot: u64 = crate::arith::isqrt(var);
        proof {
            assert(sroot <= 4_000_000_000_000) by (nonlinear_arith)
                requires
                    (sroot as int) * (sroot as int) <= 10_000_000_000_000_000_000_000_000,
                    0 <= sroot,
            ;
        }
        let scaled: u128 = crate::arith::mul_wide(sroot, PPM);
        let r128: u128 = scaled / (mean as u128);
        proof {
            assert(r128 <= scaled) by (nonlinear_arith)
                requires
                    r128 == scaled as int / mean as int,
                    mean >= 1,
                    scaled >= 0,
            ;
            assert(scaled <= 4_000_000_000_000_000_000);
        }
        r128 as u64
    }

    /// Summary statistics: last, least, greatest and mean price, volatility,
    /// trend and the number of stored points. An empty history gives the
    /// default statistics.
    pub fn get_price_stats(&self) -> (st: PriceStats)
        requires
            self.wf(),
        ensures
            self.history().len() == 0 ==> st == PriceStats::spec_default(),
            self.history().len() > 0 ==> {
                &&& st.current_price == self.history().last().price
                &&& st.min_price as int == spec_seq_min(spec_prices(self.history()))
                &&& st.max_price as int == spec_seq_max(spec_prices(self.history()))
                &&& st.avg_price as int == spec_sum_int(spec_prices(self.history()))
                    / self.history().len() as int
                &&& st.volatility as int == spec_volatility_ppm(self.history())
                &&& st.trend == spec_trend(self.history())
                &&& st.data_points == self.history().len()
            },
    {
        let ghost h = self.price_history@;
        let ghost ps = spec_prices(h);
        let n = self.price_history.len();
        if n == 0 {
            return PriceStats::default();
        }
        let first = self.price_history[0].price;
        let mut min_price: u64 = first;
        let mut max_price: u64 = first;
        let mut sum: u128 = first as u128;
        let mut i: usize = 1;
        proof {
            let s1 = ps.subrange(0, 1);
            assert(s1 =~= seq![ps[0]]);
            assert(s1.drop_last() =~= Seq::<int>::empty());
            assert(s1.last() == ps[0]);
            assert(spec_sum_int(Seq::<int>::empty()) == 0);
            assert(spec_sum_int(s1) == ps[0]);
            assert(spec_seq_min(s1) == ps[0]);
            assert(spec_seq_max(s1) == ps[0]);
            assert(ps[0] == h[0].price as int);
        }
        while i < n
            invariant
                1 <= i <= n,
                min_price as int == spec_seq_min(ps.subrange(0, i as int)),
                max_price as int == spec_seq_max(ps.subrange(0, i as int)),
                sum == spec_sum_int(ps.subrange(0, i as int)),
                sum <= i * (PRICE_MAX as int),
                min_price <= PRICE_MAX,
                max_price <= PRICE_MAX,
            decreases n - i,
        {
            let p = self.price_history[i].price;
            proof {
                assert(h[i as int].price <= PRICE_MAX);
                assert(ps[i as int] == h[i as int].price as int);
                assert(ps.subrange(0, i + 1).drop_last() =~= ps.subrange(0, i as int));
                assert(ps.subrange(0, i + 1).last() == ps[i as int]);
            }
            if p < min_price {
                min_price = p;
            }
            if p > max_price {
                max_price = p;
            }
            sum += p as u128;
            i += 1;
        }
        proof {
            assert(ps.subrange(0, n as int) =~= ps);
        }
        let avg128: u128 = sum / (n as u128);
        proof {
            assert(avg128 <= PRICE_MAX) by (nonlinear_arith)
                requires
                    avg128 == sum as int / n as int,
                    sum <= n * (PRICE_MAX as int),
                    1 <= n,
            ;
        }
        PriceStats {
            current_price: self.price_history[n - 1].price,
            min_price,
            max_price,
            avg_price: avg128 as u64,
            volatility: self.get_volatility(),
            trend: self.get_price_trend(),
            data_points: n,
        }
    }

    /// Drops the points older than the retention horizon, as of `now_ms`.
    /// Afterwards every stored point is within the horizon.
    pub fn cleanup_old_data(&mut self, now_ms: u64)
        requires
            old(self).wf(),
        ensures
            final(self).wf(),
            final(self).history() == old(self).history().skip(
                count_leading_older(old(self).history(), now_ms - RETENTION_MS),
            ),
            forall|i: int|
                0 <= i < final(self).history().len() ==> (
                #[trigger] final(self).history()[i]).timestamp_ms + RETENTION_MS >= now_ms,
            final(self).max_history() == old(self).max_history(),
            final(self).threshold_ppm() == old(self).threshold_ppm(),
            final(self).throttle_duration() == old(self).throttle_duration(),
            final(self).throttling() == old(self).throttling(),
            final(self).throttle_started() == old(self).throttle_started(),
    {
        let ghost h = self.price_history@;
        let ghost bound = now_ms - RETENTION_MS;
        let mut dropped: usize = 0;
        while self.price_history.len() > 0 && point_stale(&self.price_history[0], now_ms)
            invariant
                old(self).wf(),
                h == old(self).history(),
                dropped <= h.len(),
                h.len() <= usize::MAX,
                self.price_history@ == h.skip(dropped as int),
                forall|j: int| 0 <= j < dropped ==> (#[trigger] h[j]).timestamp_ms < bound,
                self.max_history_size == old(self).max_history_size,
                self.price_change_threshold_ppm == old(self).price_change_threshold_ppm,
                self.throttle_duration_ms == old(self).throttle_duration_ms,
                self.last_throttle_time_ms == old(self).last_throttle_time_ms,
                self.is_throttling == old(self).is_throttling,
            decreases self.price_history@.len(),
        {
            proof {
                assert(self.price_history@[0] == h[dropped as int]);
                assert(h[dropped as int].timestamp_ms < bound);
                assert(dropped < h.len());
            }
            self.price_history.pop_front();
            dropped += 1;
            proof {
                assert(self.price_history@ =~= h.skip(dropped as int));
            }
        }
        proof {
            if dropped < h.len() {
                assert(self.price_history@[0] == h[dropped as int]);
                assert(h[dropped as int].timestamp_ms >= bound);
            }
            lemma_count_leading_older_scan(h, bound, dropped as int);
            assert forall|i: int|
                0 <= i < self.price_history@.len() implies (
            #[trigger] self.price_history@[i]).timestamp_ms + RETENTION_MS >= now_ms by {
                assert(self.price_history@[i] == h[dropped + i]);
                assert(h[dropped + i].timestamp_ms >= h[dropped as int].timestamp_ms);
            }
        }
    }
}

/// Law: a well-formed monitor never stores more points than its configured
/// maximum, so every sequence of recordings keeps the history bounded.
pub proof fn lemma_history_len_bounded(m: PriceMonitor)
    requires
        m.wf(),
    ensures
        m.history().len() <= m.max_history(),
{
}

/// Law: whenever the throttle state is recomputed with at least two points
/// in the trailing window, the throttle is on afterwards iff a rise strictly
/// exceeding the threshold is observed between the earliest and the latest
/// point of that window, or it was already on and less than the cool-down
/// duration has elapsed since activation.
pub proof fn lemma_throttle_characterization(
    h: Seq<PricePoint>,
    now: u64,
    thr_ppm: u64,
    dur_ms: u64,
    flag: bool,
    started: Option<u64>,
)
    requires
        throttle_update_applies(h, now),
        flag <==> started is Some,
    ensures
        throttle_flag_after(h, now, thr_ppm, dur_ms, flag, started) <==> (rise_detected(
            h,
            now,
            thr_ppm,
        ) || (flag && now - started->0 < dur_ms)),
{
}

/// Law: a rise exactly at the threshold does not activate the throttle; the
/// comparison is strict.
pub proof fn lemma_threshold_boundary_is_strict(base: int, thr_ppm: int)
    requires
        base > 0,
        thr_ppm >= 0,
        (base * thr_ppm) % (PPM as int) == 0,
    ensures
        !pct_rise_exceeds(base, base + base * thr_ppm / (PPM as int), thr_ppm),
{
    let delta = base * thr_ppm / (PPM as int);
    assert(delta * (PPM as int) == base * thr_ppm) by (nonlinear_arith)
        requires (base * thr_ppm) % (PPM as int) == 0 && delta == base * thr_ppm / (PPM as int);
    assert(thr_ppm * base == base * thr_ppm) by (nonlinear_arith);
}

} // verus!
