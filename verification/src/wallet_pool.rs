//! Wallet pool: funding identities tagged with behavioural profiles,
//! usage-weighted selection, randomized sell eligibility, and the
//! interval/amount/direction generators.
//!
//! An identity's signing key lives with the embedder; the pool knows it by a
//! numeric key identifier. Amounts are in lamports, probabilities in parts
//! per million, multipliers in thousandths, times in milliseconds.

use vstd::prelude::*;
use crate::rng::{PPM, rand_below, rand_unit_ppm, shuffle_indices};
use crate::arith::{mul_wide, round_to_step};

verus! {

/// Milliseconds in one hour.
pub const HOUR_MS: u64 = 3_600_000;

/// Amounts are rounded to this step (a thousandth of one unit of 10^9
/// lamports) to avoid suspiciously precise values.
pub const AMOUNT_STEP: u64 = 1_000_000;

/// Wallet profile types that determine trading behaviour.
#[derive(Debug, Clone, Copy, PartialEq, Eq, Hash, Structural)]
pub enum WalletProfile {
    FrequentSeller,
    LongTermHolder,
    BalancedTrader,
    Aggressive,
    Conservative,
}

/// The fixed sell probability of a profile, in parts per million.
pub open spec fn spec_sell_probability_ppm(p: WalletProfile) -> int {
    match p {
        WalletProfile::FrequentSeller => 450_000,
        WalletProfile::LongTermHolder => 150_000,
        WalletProfile::BalancedTrader => 300_000,
        WalletProfile::Aggressive => 350_000,
        WalletProfile::Conservative => 250_000,
    }
}

/// The fixed minimum hold time of a profile, in hours.
pub open spec fn spec_min_hold_hours(p: WalletProfile) -> int {
    match p {
        WalletProfile::FrequentSeller => 6,
        WalletProfile::LongTermHolder => 72,
        WalletProfile::BalancedTrader => 24,
        WalletProfile::Aggressive => 4,
        WalletProfile::Conservative => 48,
    }
}

/// The fixed maximum hold time of a profile, in hours.
pub open spec fn spec_max_hold_hours(p: WalletProfile) -> int {
    match p {
        WalletProfile::FrequentSeller => 48,
        WalletProfile::LongTermHolder => 168,
        WalletProfile::BalancedTrader => 96,
        WalletProfile::Aggressive => 24,
        WalletProfile::Conservative => 120,
    }
}

/// The fixed trading amount multiplier of a profile, in thousandths.
pub open spec fn spec_amount_multiplier_milli(p: WalletProfile) -> int {
    match p {
        WalletProfile::FrequentSeller => 800,
        WalletProfile::LongTermHolder => 1200,
        WalletProfile::BalancedTrader => 1000,
        WalletProfile::Aggressive => 1500,
        WalletProfile::Conservative => 600,
    }
}

/// The fixed trading frequency multiplier of a profile, in thousandths.
pub open spec fn spec_frequency_multiplier_milli(p: WalletProfile) -> int {
    match p {
        WalletProfile::FrequentSeller => 700,
        WalletProfile::LongTermHolder => 2000,
        WalletProfile::BalancedTrader => 1000,
        WalletProfile::Aggressive => 500,
        WalletProfile::Conservative => 1500,
    }
}

/// The profile assigned by a uniform draw, with the fixed 20/15/35/15/15
/// percent distribution.
pub open spec fn spec_profile_from_draw(draw_ppm: int) -> WalletProfile {
    if draw_ppm < 200_000 {
        WalletProfile::FrequentSeller
    } else if draw_ppm < 350_000 {
        WalletProfile::LongTermHolder
    } else if draw_ppm < 700_000 {
        WalletProfile::BalancedTrader
    } else if draw_ppm < 850_000 {
        WalletProfile::Aggressive
    } else {
        WalletProfile::Conservative
    }
}

impl WalletProfile {
    /// The sell probability of this profile, in parts per million.
    pub fn get_sell_probability(&self) -> (r: u64)
        ensures
            r == spec_sell_probability_ppm(*self),
    {
        match self {
            WalletProfile::FrequentSeller => 450_000,
            WalletProfile::LongTermHolder => 150_000,
            WalletProfile::BalancedTrader => 300_000,
            WalletProfile::Aggressive => 350_000,
            WalletProfile::Conservative => 250_000,
        }
    }

    /// The minimum hold time of this profile, in hours.
    pub fn get_min_hold_time_hours(&self) -> (r: u64)
        ensures
            r == spec_min_hold_hours(*self),
    {
        match self {
            WalletProfile::FrequentSeller => 6,
            WalletProfile::LongTermHolder => 72,
            WalletProfile::BalancedTrader => 24,
            WalletProfile::Aggressive => 4,
            WalletProfile::Conservative => 48,
        }
    }

    /// The maximum hold time of this profile, in hours.
    pub fn get_max_hold_time_hours(&self) -> (r: u64)
        ensures
            r == spec_max_hold_hours(*self),
    {
        match self {
            WalletProfile::FrequentSeller => 48,
            WalletProfile::LongTermHolder => 168,
            WalletProfile::BalancedTrader => 96,
            WalletProfile::Aggressive => 24,
            WalletProfile::Conservative => 120,
        }
    }

    /// The trading amount multiplier of this profile, in thousandths.
    pub fn get_amount_multiplier(&self) -> (r: u64)
        ensures
            r == spec_amount_multiplier_milli(*self),
    {
        match self {
            WalletProfile::FrequentSeller => 800,
            WalletProfile::LongTermHolder => 1200,
            WalletProfile::BalancedTrader => 1000,
            WalletProfile::Aggressive => 1500,
            WalletProfile::Conservative => 600,
        }
    }

    /// The trading frequency multiplier of this profile, in thousandths.
    pub fn get_frequency_multiplier(&self) -> (r: u64)
        ensures
            r == spec_frequency_multiplier_milli(*self),
    {
        match self {
            WalletProfile::FrequentSeller => 700,
            WalletProfile::LongTermHolder => 2000,
            WalletProfile::BalancedTrader => 1000,
            WalletProfile::Aggressive => 500,
            WalletProfile::Conservative => 1500,
        }
    }

    /// The profile a given uniform draw assigns: the verified banding behind
    /// [`WalletProfile::random_profile`].
    pub fn profile_from_draw(draw_ppm: u64) -> (r: WalletProfile)
        ensures
            r == spec_profile_from_draw(draw_ppm as int),
    {
        if draw_ppm < 200_000 {
            WalletProfile::FrequentSeller
        } else if draw_ppm < 350_000 {
            WalletProfile::LongTermHolder
        } else if draw_ppm < 700_000 {
            WalletProfile::BalancedTrader
        } else if draw_ppm < 850_000 {
            WalletProfile::Aggressive
        } else {
            WalletProfile::Conservative
        }
    }

    /// Randomly assigns a profile with the fixed 20/15/35/15/15 percent
    /// distribution. Every profile is a possible outcome.
    pub fn random_profile() -> WalletProfile {
        let draw = rand_unit_ppm();
        WalletProfile::profile_from_draw(draw)
    }
}

/// One funding identity: its key identifier, behavioural profile, and
/// trading history counters.
#[derive(Debug, Clone, Copy)]
pub struct WalletInfo {
    pub key_id: u64,
    pub profile: WalletProfile,
    pub usage_count: u32,
    pub last_buy_time_ms: Option<u64>,
    pub last_sell_time_ms: Option<u64>,
    pub total_buys: u32,
    pub total_sells: u32,
    pub created_at_ms: u64,
}

/// The identity after a recorded buy: usage and buy counters up one
/// (saturating), the last-buy time set.
pub open spec fn spec_buy_recorded(w: WalletInfo, now_ms: u64) -> WalletInfo {
    WalletInfo {
        usage_count: if w.usage_count == u32::MAX { u32::MAX } else { (w.usage_count + 1) as u32 },
        total_buys: if w.total_buys == u32::MAX { u32::MAX } else { (w.total_buys + 1) as u32 },
        last_buy_time_ms: Some(now_ms),
        ..w
    }
}

/// The identity after a recorded sell: usage and sell counters up one
/// (saturating), the last-sell time set.
pub open spec fn spec_sell_recorded(w: WalletInfo, now_ms: u64) -> WalletInfo {
    WalletInfo {
        usage_count: if w.usage_count == u32::MAX { u32::MAX } else { (w.usage_count + 1) as u32 },
        total_sells: if w.total_sells == u32::MAX { u32::MAX } else { (w.total_sells + 1) as u32 },
        last_sell_time_ms: Some(now_ms),
        ..w
    }
}

/// Whole hours elapsed from `from_ms` to `now_ms`, zero when the clock reads
/// earlier than the recorded time.
pub open spec fn spec_hours_since(from_ms: u64, now_ms: u64) -> int {
    if now_ms >= from_ms {
        (now_ms - from_ms) / (HOUR_MS as int)
    } else {
        0
    }
}

/// The effective minimum sell delay: the stricter of the profile's and the
/// global bound.
pub open spec fn spec_min_delay(p: WalletProfile, min_global_hours: u64) -> int {
    if spec_min_hold_hours(p) >= min_global_hours {
        spec_min_hold_hours(p)
    } else {
        min_global_hours as int
    }
}

/// The effective maximum sell delay: the stricter of the profile's and the
/// global bound.
pub open spec fn spec_max_delay(p: WalletProfile, max_global_hours: u64) -> int {
    if spec_max_hold_hours(p) <= max_global_hours {
        spec_max_hold_hours(p)
    } else {
        max_global_hours as int
    }
}

impl WalletInfo {
    /// A fresh identity for the given key, with a randomly assigned profile
    /// and empty history.
    pub fn new(key_id: u64, now_ms: u64) -> (w: WalletInfo)
        ensures
            w.key_id == key_id,
            w.usage_count == 0,
            w.last_buy_time_ms is None,
            w.last_sell_time_ms is None,
            w.total_buys == 0,
            w.total_sells == 0,
            w.created_at_ms == now_ms,
    {
        WalletInfo {
            key_id,
            profile: WalletProfile::random_profile(),
            usage_count: 0,
            last_buy_time_ms: None,
            last_sell_time_ms: None,
            total_buys: 0,
            total_sells: 0,
            created_at_ms: now_ms,
        }
    }

    /// The key identifier standing for this identity's signing key.
    pub fn pubkey(&self) -> (r: u64)
        ensures
            r == self.key_id,
    {
        self.key_id
    }

    /// Whether the identity is sell-eligible against a fixed required delay:
    /// it has bought before, and at least that many hours have passed since.
    pub fn can_sell_with_delay(&self, required_delay_hours: u64, now_ms: u64) -> (r: bool)
        ensures
            r <==> (self.last_buy_time_ms is Some && spec_hours_since(
                self.last_buy_time_ms->0,
                now_ms,
            ) >= required_delay_hours),
    {
        match self.last_buy_time_ms {
            None => false,
            Some(last_buy) => {
                let hours: u64 = if now_ms >= last_buy {
                    (now_ms - last_buy) / HOUR_MS
                } else {
                    0
                };
                hours >= required_delay_hours
            },
        }
    }

    /// Whether the identity may sell now: it must have bought before, and the
    /// hours since that buy must reach a required delay drawn uniformly
    /// between the effective minimum and maximum delays. An identity whose
    /// effective delay range is empty is never eligible.
    pub fn can_sell(&self, min_global_delay_hours: u64, max_global_delay_hours: u64, now_ms: u64)
        -> (r: bool)
        ensures
            self.last_buy_time_ms is None ==> !r,
            spec_min_delay(self.profile, min_global_delay_hours) > spec_max_delay(
                self.profile,
                max_global_delay_hours,
            ) ==> !r,
            r ==> self.last_buy_time_ms is Some && spec_hours_since(
                self.last_buy_time_ms->0,
                now_ms,
            ) >= spec_min_delay(self.profile, min_global_delay_hours),
            (self.last_buy_time_ms is Some && spec_min_delay(self.profile, min_global_delay_hours)
                <= spec_max_delay(self.profile, max_global_delay_hours) && spec_hours_since(
                self.last_buy_time_ms->0,
                now_ms,
            ) >= spec_max_delay(self.profile, max_global_delay_hours)) ==> r,
    {
        let profile_min = self.profile.get_min_hold_time_hours();
        let profile_max = self.profile.get_max_hold_time_hours();
        let min_delay: u64 = if profile_min >= min_global_delay_hours {
            profile_min
        } else {
            min_global_delay_hours
        };
        let max_delay: u64 = if profile_max <= max_global_delay_hours {
            profile_max
        } else {
            max_global_delay_hours
        };
        if self.last_buy_time_ms.is_none() {
            return false;
        }
        if min_delay > max_delay {
            return false;
        }
        let required_delay: u64 = min_delay + rand_below(max_delay - min_delay + 1);
        self.can_sell_with_delay(required_delay, now_ms)
    }

    /// Records a buy at `now_ms`: usage and buy counters go up one
    /// (saturating) and the last-buy time is set.
    pub fn record_buy(&mut self, now_ms: u64)
        ensures
            *final(self) == spec_buy_recorded(*old(self), now_ms),
    {
        self.usage_count = self.usage_count.saturating_add(1);
        self.total_buys = self.total_buys.saturating_add(1);
        self.last_buy_time_ms = Some(now_ms);
    }

    /// Records a sell at `now_ms`: usage and sell counters go up one
    /// (saturating) and the last-sell time is set.
    pub fn record_sell(&mut self, now_ms: u64)
        ensures
            *final(self) == spec_sell_recorded(*old(self), now_ms),
    {
        self.usage_count = self.usage_count.saturating_add(1);
        self.total_sells = self.total_sells.saturating_add(1);
        self.last_sell_time_ms = Some(now_ms);
    }
}

/// Why a pool cannot be built.
#[derive(Debug, Clone, Copy, PartialEq, Eq, Structural)]
pub enum PoolError {
    /// No identity was handed to the pool.
    NoWallets,
}

/// The selection weight of an identity with usage `u` when the heaviest
/// usage in the pool is `max_usage`: less-used identities weigh more, and
/// the most-used identity still weighs one.
pub open spec fn spec_weight(max_usage: int, u: int) -> int {
    max_usage + 1 - u
}

/// Sum of the selection weights of the first `k` identities.
pub open spec fn spec_cum_weight(usages: Seq<u32>, max_usage: int, k: int) -> int
    decreases k,
{
    if k <= 0 {
        0
    } else {
        spec_cum_weight(usages, max_usage, k - 1) + spec_weight(max_usage, usages[k - 1] as int)
    }
}

/// First index whose identity has the given key, or the length when none has.
pub open spec fn spec_find_key(ws: Seq<WalletInfo>, key_id: u64) -> int
    decreases ws.len(),
{
    if ws.len() == 0 {
        0
    } else if ws[0].key_id == key_id {
        0
    } else {
        1 + spec_find_key(ws.drop_first(), key_id)
    }
}

/// A pool of funding identities with usage-aware random selection.
pub struct WalletPool {
    wallets: Vec<WalletInfo>,
}

impl WalletPool {
    /// The identities held by the pool, in creation order.
    pub closed spec fn wallets(self) -> Seq<WalletInfo> {
        self.wallets@
    }

    /// Builds a pool over the given signing keys, assigning each identity a
    /// random profile. Fails exactly when no key is given.
    pub fn new(key_ids: &Vec<u64>, now_ms: u64) -> (r: Result<WalletPool, PoolError>)
        ensures
            r is Ok <==> key_ids@.len() > 0,
            r is Err ==> r == Result::<WalletPool, PoolError>::Err(PoolError::NoWallets),
            r is Ok ==> {
                let p = r->Ok_0;
                &&& p.wallets().len() == key_ids@.len()
                &&& forall|i: int|
                    0 <= i < key_ids@.len() ==> {
                        let w = #[trigger] p.wallets()[i];
                        &&& w.key_id == key_ids@[i]
                        &&& w.usage_count == 0
                        &&& w.last_buy_time_ms is None
                        &&& w.last_sell_time_ms is None
                        &&& w.total_buys == 0
                        &&& w.total_sells == 0
                        &&& w.created_at_ms == now_ms
                    }
            },
    {
        if key_ids.len() == 0 {
            return Err(PoolError::NoWallets);
        }
        let mut wallets: Vec<WalletInfo> = Vec::new();
        let mut i: usize = 0;
        while i < key_ids.len()
            invariant
                0 <= i <= key_ids@.len(),
                wallets@.len() == i,
                forall|j: int|
                    0 <= j < i ==> {
                        let w = #[trigger] wallets@[j];
                        &&& w.key_id == key_ids@[j]
                        &&& w.usage_count == 0
                        &&& w.last_buy_time_ms is None
                        &&& w.last_sell_time_ms is None
                        &&& w.total_buys == 0
                        &&& w.total_sells == 0
                        &&& w.created_at_ms == now_ms
                    },
            decreases key_ids@.len() - i,
        {
            wallets.push(WalletInfo::new(key_ids[i], now_ms));
            i += 1;
        }
        Ok(WalletPool { wallets })
    }

    /// How many identities the pool holds.
    pub fn wallet_count(&self) -> (r: usize)
        ensures
            r == self.wallets().len(),
    {
        self.wallets.len()
    }

    /// The index the given draw selects under usage-inverse weighting: the
    /// verified walk behind [`WalletPool::get_random_wallet`]. Identity `i`
    /// owns the draws in `[cum(i), cum(i + 1))`, a band of exactly its
    /// weight.
    pub fn pick_weighted(usages: &Vec<u32>, max_usage: u32, draw: u64) -> (idx: usize)
        requires
            usages@.len() >= 1,
            forall|i: int| 0 <= i < usages@.len() ==> #[trigger] usages@[i] <= max_usage,
            spec_cum_weight(usages@, max_usage as int, usages@.len() as int) <= u64::MAX,
            draw < spec_cum_weight(usages@, max_usage as int, usages@.len() as int),
        ensures
            idx < usages@.len(),
            spec_cum_weight(usages@, max_usage as int, idx as int) <= draw,
            draw < spec_cum_weight(usages@, max_usage as int, idx as int + 1),
    {
        let n = usages.len();
        let mut acc: u64 = 0;
        let mut i: usize = 0;
        while i < n
            invariant
                0 <= i <= n,
                n == usages@.len(),
                acc == spec_cum_weight(usages@, max_usage as int, i as int),
                acc <= draw,
            decreases n - i,
        {
            let w: u64 = (max_usage as u64) + 1 - (usages[i] as u64);
            if draw - acc < w {
                return i;
            }
            acc = acc + w;
            i += 1;
        }
        proof {
            assert(false);
        }
        0
    }

    /// Selects an identity for a trade: uniformly when all usage counts are
    /// equal, otherwise weighted towards less-used identities with weight
    /// `max_usage + 1 - usage`. The selected identity's usage count goes up
    /// one, and its key identifier is returned. A non-empty pool always
    /// yields an identity.
    pub fn get_random_wallet(&mut self) -> (r: u64)
        requires
            old(self).wallets().len() >= 1,
            old(self).wallets().len() < 0x1_0000_0000,
        ensures
            exists|i: int|
                {
                    &&& 0 <= i < old(self).wallets().len()
                    &&& r == old(self).wallets()[i].key_id
                    &&& final(self).wallets() =~= old(self).wallets().update(
                        i,
                        spec_usage_bumped(#[trigger] old(self).wallets()[i]),
                    )
                },
    {
        let ghost ws = self.wallets@;
        let n = self.wallets.len();
        let mut max_usage: u32 = 0;
        let mut min_usage: u32 = u32::MAX;
        let mut i: usize = 0;
        while i < n
            invariant
                0 <= i <= n,
                n == self.wallets@.len(),
                self.wallets@ == ws,
                forall|j: int| 0 <= j < i ==> (#[trigger] ws[j]).usage_count <= max_usage,
                forall|j: int| 0 <= j < i ==> (#[trigger] ws[j]).usage_count >= min_usage,
                i > 0 ==> exists|j: int| 0 <= j < i && (#[trigger] ws[j]).usage_count == max_usage,
                i == 0 ==> max_usage == 0 && min_usage == u32::MAX,
            decreases n - i,
        {
            let u = self.wallets[i].usage_count;
            if i == 0 {
                max_usage = u;
                min_usage = u;
            } else {
                if u > max_usage {
                    max_usage = u;
                }
                if u < min_usage {
                    min_usage = u;
                }
            }
            i += 1;
        }
        let idx: usize;
        if max_usage == min_usage {
            // All identities are equally used: pick uniformly.
            idx = rand_below(n as u64) as usize;
        } else {
            let mut usages: Vec<u32> = Vec::new();
            let mut k: usize = 0;
            while k < n
                invariant
                    0 <= k <= n,
                    n == self.wallets@.len(),
                    self.wallets@ == ws,
                    usages@.len() == k,
                    forall|j: int| 0 <= j < k ==> #[trigger] usages@[j] == ws[j].usage_count,
                decreases n - k,
            {
                usages.push(self.wallets[k].usage_count);
                k += 1;
            }
            let mut total: u64 = 0;
            let mut t: usize = 0;
            while t < n
                invariant
                    0 <= t <= n,
                    n == usages@.len(),
                    forall|j: int| 0 <= j < n ==> #[trigger] usages@[j] <= max_usage,
                    total == spec_cum_weight(usages@, max_usage as int, t as int),
                    total <= t * 0x1_0000_0000,
                    total >= t,
                decreases n - t,
            {
                let w: u64 = (max_usage as u64) + 1 - (usages[t] as u64);
                total = total + w;
                t += 1;
            }
            let draw = rand_below(total);
            idx = Self::pick_weighted(&usages, max_usage, draw);
        }
        let key = self.wallets[idx].key_id;
        let ghost picked = self.wallets@[idx as int];
        let bumped = self.wallets[idx].usage_count.saturating_add(1);
        self.wallets[idx].usage_count = bumped;
        proof {
            assert(self.wallets@ =~= ws.update(idx as int, spec_usage_bumped(picked)));
            assert(0 <= idx < ws.len() && key == ws[idx as int].key_id && self.wallets@
                =~= ws.update(idx as int, spec_usage_bumped(ws[idx as int])));
        }
        key
    }
}

/// How many identities carry the given profile.
pub open spec fn spec_profile_count(ws: Seq<WalletInfo>, p: WalletProfile) -> int
    decreases ws.len(),
{
    if ws.len() == 0 {
        0
    } else {
        spec_profile_count(ws.drop_last(), p) + if ws.last().profile == p {
            1int
        } else {
            0int
        }
    }
}

proof fn lemma_find_key_scan(ws: Seq<WalletInfo>, key_id: u64, i: int)
    requires
        0 <= i <= ws.len(),
        forall|j: int| 0 <= j < i ==> (#[trigger] ws[j]).key_id != key_id,
        i < ws.len() ==> ws[i].key_id == key_id,
    ensures
        spec_find_key(ws, key_id) == i,
    decreases ws.len(),
{
    if ws.len() == 0 {
    } else if ws[0].key_id == key_id {
        assert(i == 0);
    } else {
        assert(i >= 1);
        let t = ws.drop_first();
        assert forall|j: int| 0 <= j < i - 1 implies (#[trigger] t[j]).key_id != key_id by {
            assert(t[j] == ws[j + 1]);
        }
        if i - 1 < t.len() {
            assert(t[i - 1] == ws[i]);
        }
        lemma_find_key_scan(t, key_id, i - 1);
    }
}

/// An identity that is sell-eligible under every delay draw: it has bought,
/// its delay range is non-empty, and the hours since the buy reach even the
/// effective maximum delay.
pub open spec fn spec_surely_eligible(
    w: WalletInfo,
    min_global_hours: u64,
    max_global_hours: u64,
    now_ms: u64,
) -> bool {
    &&& w.last_buy_time_ms is Some
    &&& spec_min_delay(w.profile, min_global_hours) <= spec_max_delay(w.profile, max_global_hours)
    &&& spec_hours_since(w.last_buy_time_ms->0, now_ms) >= spec_max_delay(
        w.profile,
        max_global_hours,
    )
}

impl WalletPool {
    /// Selects an identity eligible to sell, if any: the eligible identities
    /// are gathered, shuffled, and the first is taken; its sell counters are
    /// updated. With no eligible identity (in particular, when none has ever
    /// bought) the pool is left unchanged and nothing is returned. An
    /// identity whose hold time has passed even the effective maximum delay
    /// is eligible whatever is drawn, so one is then always selected.
    pub fn get_wallet_for_selling(
        &mut self,
        min_global_delay_hours: u64,
        max_global_delay_hours: u64,
        now_ms: u64,
    ) -> (r: Option<u64>)
        ensures
            r is None ==> final(self).wallets() == old(self).wallets(),
            r is Some ==> exists|i: int|
                {
                    &&& 0 <= i < old(self).wallets().len()
                    &&& r->0 == (#[trigger] old(self).wallets()[i]).key_id
                    &&& old(self).wallets()[i].last_buy_time_ms is Some
                    &&& spec_hours_since(old(self).wallets()[i].last_buy_time_ms->0, now_ms)
                        >= spec_min_delay(old(self).wallets()[i].profile, min_global_delay_hours)
                    &&& final(self).wallets() =~= old(self).wallets().update(
                        i,
                        spec_sell_recorded(old(self).wallets()[i], now_ms),
                    )
                },
            (forall|i: int|
                0 <= i < old(self).wallets().len() ==> (#[trigger] old(
                    self,
                ).wallets()[i]).last_buy_time_ms is None) ==> r is None,
            (exists|i: int|
                0 <= i < old(self).wallets().len() && spec_surely_eligible(
                    #[trigger] old(self).wallets()[i],
                    min_global_delay_hours,
                    max_global_delay_hours,
                    now_ms,
                )) ==> r is Some,
    {
        let ghost ws = self.wallets@;
        let n = self.wallets.len();
        let mut eligible: Vec<usize> = Vec::new();
        let mut i: usize = 0;
        while i < n
            invariant
                0 <= i <= n,
                n == self.wallets@.len(),
                self.wallets@ == ws,
                forall|j: int|
                    0 <= j < eligible@.len() ==> {
                        let w = ws[(#[trigger] eligible@[j]) as int];
                        &&& eligible@[j] < n
                        &&& w.last_buy_time_ms is Some
                        &&& spec_hours_since(w.last_buy_time_ms->0, now_ms) >= spec_min_delay(
                            w.profile,
                            min_global_delay_hours,
                        )
                    },
                (exists|j: int|
                    0 <= j < i && spec_surely_eligible(
                        #[trigger] ws[j],
                        min_global_delay_hours,
                        max_global_delay_hours,
                        now_ms,
                    )) ==> eligible@.len() > 0,
            decreases n - i,
        {
            if self.wallets[i].can_sell(min_global_delay_hours, max_global_delay_hours, now_ms) {
                eligible.push(i);
            }
            i += 1;
        }
        if eligible.len() == 0 {
            return None;
        }
        let ghost pre = eligible@;
        shuffle_indices(&mut eligible);
        proof {
            broadcast use vstd::seq_lib::group_to_multiset_ensures;

            let x = eligible@[0];
            assert(eligible@.contains(x)) by {
                assert(eligible@[0] == x);
            }
            assert(pre.to_multiset().count(x) > 0);
            assert(pre.contains(x));
        }
        let sel: usize = eligible[0];
        proof {
            let j = choose|j: int| 0 <= j < pre.len() && pre[j] == sel;
            assert(ws[sel as int].last_buy_time_ms is Some);
            assert(spec_hours_since(ws[sel as int].last_buy_time_ms->0, now_ms) >= spec_min_delay(
                ws[sel as int].profile,
                min_global_delay_hours,
            ));
        }
        let key = self.wallets[sel].key_id;
        let mut w = self.wallets[sel];
        w.record_sell(now_ms);
        self.wallets[sel] = w;
        proof {
            let ows = old(self).wallets();
            assert(ows == ws);
            assert(0 <= (sel as int) < ows.len());
            assert(key == ows[sel as int].key_id);
            assert(ows[sel as int].last_buy_time_ms is Some);
            assert(spec_hours_since(ows[sel as int].last_buy_time_ms->0, now_ms) >= spec_min_delay(
                ows[sel as int].profile,
                min_global_delay_hours,
            ));
            assert(self.wallets@ =~= ows.update(
                sel as int,
                spec_sell_recorded(ows[sel as int], now_ms),
            ));
        }
        Some(key)
    }

    /// Records a buy for the first identity with the given key, at `now_ms`;
    /// a key nobody holds changes nothing.
    pub fn record_buy_for_wallet(&mut self, key_id: u64, now_ms: u64)
        ensures
            spec_find_key(old(self).wallets(), key_id) < old(self).wallets().len() ==> final(self).wallets() =~= old(self).wallets().update(
                spec_find_key(old(self).wallets(), key_id),
                spec_buy_recorded(
                    old(self).wallets()[spec_find_key(old(self).wallets(), key_id)],
                    now_ms,
                ),
            ),
            spec_find_key(old(self).wallets(), key_id) == old(self).wallets().len() ==> final(self).wallets() == old(self).wallets(),
    {
        let ghost ws = self.wallets@;
        let n = self.wallets.len();
        let mut i: usize = 0;
        while i < n
            invariant
                0 <= i <= n,
                n == self.wallets@.len(),
                self.wallets@ == ws,
                forall|j: int| 0 <= j < i ==> (#[trigger] ws[j]).key_id != key_id,
            decreases n - i,
        {
            if self.wallets[i].key_id == key_id {
                proof {
                    lemma_find_key_scan(ws, key_id, i as int);
                }
                let mut w = self.wallets[i];
                w.record_buy(now_ms);
                self.wallets[i] = w;
                return ;
            }
            i += 1;
        }
        proof {
            lemma_find_key_scan(ws, key_id, n as int);
        }
    }

    /// The usage count of each identity, by key identifier, in pool order.
    pub fn get_usage_stats(&self) -> (r: Vec<(u64, u32)>)
        ensures
            r@.len() == self.wallets().len(),
            forall|i: int|
                0 <= i < r@.len() ==> #[trigger] r@[i] == (
                    self.wallets()[i].key_id,
                    self.wallets()[i].usage_count,
                ),
    {
        let mut r: Vec<(u64, u32)> = Vec::new();
        let mut i: usize = 0;
        let n = self.wallets.len();
        while i < n
            invariant
                0 <= i <= n,
                n == self.wallets@.len(),
                r@.len() == i,
                forall|j: int|
                    0 <= j < i ==> #[trigger] r@[j] == (
                        self.wallets@[j].key_id,
                        self.wallets@[j].usage_count,
                    ),
            decreases n - i,
        {
            r.push((self.wallets[i].key_id, self.wallets[i].usage_count));
            i += 1;
        }
        r
    }

    /// How many identities carry each profile, in a fixed profile order.
    pub fn get_profile_stats(&self) -> (r: Vec<(WalletProfile, usize)>)
        ensures
            r@.len() == 5,
            r@[0].0 == WalletProfile::FrequentSeller,
            r@[1].0 == WalletProfile::LongTermHolder,
            r@[2].0 == WalletProfile::BalancedTrader,
            r@[3].0 == WalletProfile::Aggressive,
            r@[4].0 == WalletProfile::Conservative,
            forall|i: int|
                0 <= i < 5 ==> (#[trigger] r@[i]).1 == spec_profile_count(
                    self.wallets(),
                    r@[i].0,
                ),
    {
        let ghost ws = self.wallets@;
        let n = self.wallets.len();
        let mut frequent: usize = 0;
        let mut long_term: usize = 0;
        let mut balanced: usize = 0;
        let mut aggressive: usize = 0;
        let mut conservative: usize = 0;
        let mut i: usize = 0;
        proof {
            assert(ws.subrange(0, 0) =~= Seq::<WalletInfo>::empty());
        }
        while i < n
            invariant
                0 <= i <= n,
                n == self.wallets@.len(),
                self.wallets@ == ws,
                frequent == spec_profile_count(
                    ws.subrange(0, i as int),
                    WalletProfile::FrequentSeller,
                ),
                long_term == spec_profile_count(
                    ws.subrange(0, i as int),
                    WalletProfile::LongTermHolder,
                ),
                balanced == spec_profile_count(
                    ws.subrange(0, i as int),
                    WalletProfile::BalancedTrader,
                ),
                aggressive == spec_profile_count(
                    ws.subrange(0, i as int),
                    WalletProfile::Aggressive,
                ),
                conservative == spec_profile_count(
                    ws.subrange(0, i as int),
                    WalletProfile::Conservative,
                ),
                frequent <= i && long_term <= i && balanced <= i && aggressive <= i
                    && conservative <= i,
            decreases n - i,
        {
            proof {
                assert(ws.subrange(0, i + 1).drop_last() =~= ws.subrange(0, i as int));
                assert(ws.subrange(0, i + 1).last() == ws[i as int]);
            }
            match self.wallets[i].profile {
                WalletProfile::FrequentSeller => frequent += 1,
                WalletProfile::LongTermHolder => long_term += 1,
                WalletProfile::BalancedTrader => balanced += 1,
                WalletProfile::Aggressive => aggressive += 1,
                WalletProfile::Conservative => conservative += 1,
            }
            i += 1;
        }
        proof {
            assert(ws.subrange(0, n as int) =~= ws);
        }
        let mut r: Vec<(WalletProfile, usize)> = Vec::new();
        r.push((WalletProfile::FrequentSeller, frequent));
        r.push((WalletProfile::LongTermHolder, long_term));
        r.push((WalletProfile::BalancedTrader, balanced));
        r.push((WalletProfile::Aggressive, aggressive));
        r.push((WalletProfile::Conservative, conservative));
        r
    }

    /// The key identifiers of the `count` least-used identities: the pool's
    /// indices are ordered by rising usage count, and the first `count` are
    /// handed out (all of them when the pool is smaller).
    pub fn get_least_used_wallets(&self, count: usize) -> (r: Vec<u64>)
        ensures
            r@.len() == if count <= self.wallets().len() {
                count as int
            } else {
                self.wallets().len() as int
            },
            exists|order: Seq<usize>|
                {
                    &&& #[trigger] order.len() == self.wallets().len()
                    &&& forall|a: int| 0 <= a < order.len() ==> (#[trigger] order[a]) < order.len()
                    &&& forall|a: int, b: int| 0 <= a < b < order.len() ==> order[a] != order[b]
                    &&& forall|a: int, b: int|
                        0 <= a <= b < order.len() ==> self.wallets()[(#[trigger] order[a]) as int].usage_count
                            <= self.wallets()[(#[trigger] order[b]) as int].usage_count
                    &&& forall|a: int|
                        0 <= a < r@.len() ==> #[trigger] r@[a] == self.wallets()[order[a] as int].key_id
                },
    {
        let ghost ws = self.wallets@;
        let n = self.wallets.len();
        let mut idxs: Vec<usize> = Vec::new();
        let mut i: usize = 0;
        while i < n
            invariant
                0 <= i <= n,
                idxs@.len() == i,
                forall|a: int| 0 <= a < i ==> (#[trigger] idxs@[a]) == a,
            decreases n - i,
        {
            idxs.push(i);
            i += 1;
        }
        let mut s: usize = 0;
        while s < n
            invariant
                0 <= s <= n,
                n == self.wallets@.len(),
                self.wallets@ == ws,
                idxs@.len() == n,
                forall|a: int| 0 <= a < n ==> (#[trigger] idxs@[a]) < n,
                forall|a: int, b: int| 0 <= a < b < n ==> idxs@[a] != idxs@[b],
                forall|a: int, b: int|
                    0 <= a <= b < s ==> ws[(#[trigger] idxs@[a]) as int].usage_count <= ws[(
                    #[trigger] idxs@[b]) as int].usage_count,
                forall|a: int, b: int|
                    0 <= a < s <= b < n ==> ws[(#[trigger] idxs@[a]) as int].usage_count <= ws[(
                    #[trigger] idxs@[b]) as int].usage_count,
            decreases n - s,
        {
            let mut m: usize = s;
            let mut j: usize = s + 1;
            while j < n
                invariant
                    s <= m < j <= n,
                    n == self.wallets@.len(),
                    self.wallets@ == ws,
                    idxs@.len() == n,
                    forall|a: int| 0 <= a < n ==> (#[trigger] idxs@[a]) < n,
                    forall|k: int|
                        s <= k < j ==> ws[idxs@[m as int] as int].usage_count <= ws[(
                        #[trigger] idxs@[k]) as int].usage_count,
                decreases n - j,
            {
                if self.wallets[idxs[j]].usage_count < self.wallets[idxs[m]].usage_count {
                    m = j;
                }
                j += 1;
            }
            let lo = idxs[s];
            let chosen = idxs[m];
            idxs[s] = chosen;
            idxs[m] = lo;
            s += 1;
        }
        let take: usize = if count <= n {
            count
        } else {
            n
        };
        let mut r: Vec<u64> = Vec::new();
        let mut t: usize = 0;
        while t < take
            invariant
                0 <= t <= take <= n,
                n == self.wallets@.len(),
                self.wallets@ == ws,
                idxs@.len() == n,
                forall|a: int| 0 <= a < n ==> (#[trigger] idxs@[a]) < n,
                r@.len() == t,
                forall|a: int| 0 <= a < t ==> #[trigger] r@[a] == ws[idxs@[a] as int].key_id,
            decreases take - t,
        {
            r.push(self.wallets[idxs[t]].key_id);
            t += 1;
        }
        proof {
            let order = idxs@;
            assert(order.len() == self.wallets().len());
        }
        r
    }

    /// Sets every identity's usage count back to zero, leaving the rest of
    /// each record as it was.
    pub fn reset_usage_stats(&mut self)
        ensures
            final(self).wallets().len() == old(self).wallets().len(),
            forall|i: int|
                0 <= i < old(self).wallets().len() ==> #[trigger] final(self).wallets()[i] == (
                WalletInfo { usage_count: 0, ..old(self).wallets()[i] }),
    {
        let ghost ws = self.wallets@;
        let n = self.wallets.len();
        let mut i: usize = 0;
        while i < n
            invariant
                0 <= i <= n,
                n == self.wallets@.len(),
                forall|j: int|
                    i <= j < n ==> #[trigger] self.wallets@[j] == ws[j],
                forall|j: int|
                    0 <= j < i ==> #[trigger] self.wallets@[j] == (WalletInfo {
                        usage_count: 0,
                        ..ws[j]
                    }),
            decreases n - i,
        {
            self.wallets[i].usage_count = 0;
            i += 1;
        }
    }
}

/// Law: recording a buy, a sell, or a selection never decreases an
/// identity's counters, and a recorded action always leaves its timestamp.
pub proof fn lemma_counters_only_increase(w: WalletInfo, now_ms: u64)
    ensures
        spec_buy_recorded(w, now_ms).usage_count >= w.usage_count,
        spec_buy_recorded(w, now_ms).total_buys >= w.total_buys,
        spec_buy_recorded(w, now_ms).last_buy_time_ms == Some(now_ms),
        spec_sell_recorded(w, now_ms).usage_count >= w.usage_count,
        spec_sell_recorded(w, now_ms).total_sells >= w.total_sells,
        spec_sell_recorded(w, now_ms).last_sell_time_ms == Some(now_ms),
        spec_usage_bumped(w).usage_count >= w.usage_count,
{
}

/// Law: each identity owns a band of draws exactly as large as its selection
/// weight.
pub proof fn lemma_selection_band(usages: Seq<u32>, max_usage: int, i: int)
    requires
        0 <= i < usages.len(),
    ensures
        spec_cum_weight(usages, max_usage, i + 1) - spec_cum_weight(usages, max_usage, i)
            == spec_weight(max_usage, usages[i] as int),
{
}

/// Law: an identity used no more than another weighs no less, so it is
/// selected no less often in expectation.
pub proof fn lemma_less_used_weighs_no_less(max_usage: int, u1: int, u2: int)
    requires
        u1 <= u2,
    ensures
        spec_weight(max_usage, u1) >= spec_weight(max_usage, u2),
{
}

/// Law: with all usage counts equal, every weight is one and the cumulative
/// weights are 0, 1, 2, ..., so a uniform draw selects each identity with
/// the same probability.
pub proof fn lemma_equal_usage_uniform(usages: Seq<u32>, k: int)
    requires
        usages.len() > 0,
        0 <= k <= usages.len(),
        forall|i: int| 0 <= i < usages.len() ==> #[trigger] usages[i] == usages[0],
    ensures
        spec_cum_weight(usages, usages[0] as int, k) == k,
    decreases k,
{
    if k > 0 {
        lemma_equal_usage_uniform(usages, k - 1);
        assert(usages[k - 1] == usages[0]);
    }
}

impl WalletPool {
    /// The interval given draws pick: the verified arithmetic behind
    /// [`WalletPool::generate_random_interval`].
    pub fn interval_from_draws(base_interval_ms: u64, tier_draw: u64, mult_frac: u64, jitter_frac: u64)
        -> (r: u64)
        requires
            tier_draw < PPM,
            mult_frac < PPM,
            jitter_frac < PPM,
        ensures
            r as int == spec_interval_value(
                base_interval_ms as int,
                spec_tier_multiplier_milli(tier_draw as int, mult_frac as int),
                spec_jitter_milli(jitter_frac as int),
            ),
            r >= MIN_INTERVAL_MS,
            r as int <= if base_interval_ms * 11 > MIN_INTERVAL_MS as int {
                base_interval_ms * 11
            } else {
                MIN_INTERVAL_MS as int
            },
    {
        let m: u64 = if tier_draw < 700_000 {
            500 + mult_frac * 1500 / PPM
        } else if tier_draw < 900_000 {
            2000 + mult_frac * 3000 / PPM
        } else {
            5000 + mult_frac * 5000 / PPM
        };
        let j: u64 = 900 + jitter_frac * 200 / PPM;
        proof {
            lemma_tier_multiplier_bands(tier_draw as int, mult_frac as int);
            lemma_jitter_band(jitter_frac as int);
            lemma_interval_band(base_interval_ms as int, m as int, j as int);
        }
        proof {
            assert((base_interval_ms as int) * (m as int) <= u128::MAX as int) by (nonlinear_arith)
                requires 0 <= base_interval_ms <= u64::MAX && 0 <= m < 10000;
            assert((base_interval_ms as int) * (m as int) / 1000 * (j as int) <= u128::MAX as int)
                by (nonlinear_arith)
                requires 0 <= base_interval_ms <= u64::MAX && 0 <= m < 10000 && 0 <= j < 1100;
        }
        let wide: u128 = (base_interval_ms as u128) * (m as u128) / 1000 * (j as u128) / 1000;
        let capped: u64 = if wide > (u64::MAX as u128) {
            u64::MAX
        } else {
            wide as u64
        };
        if capped < MIN_INTERVAL_MS {
            MIN_INTERVAL_MS
        } else {
            capped
        }
    }

    /// A randomized trading interval: a three-tier multiplier mixture with an
    /// independent jitter, never below the one-second floor and never above
    /// eleven times the base. The result is always the interval of some
    /// triple of uniform draws.
    pub fn generate_random_interval(&self, base_interval_ms: u64) -> (r: u64)
        ensures
            r >= MIN_INTERVAL_MS,
            r as int <= if base_interval_ms * 11 > MIN_INTERVAL_MS as int {
                base_interval_ms * 11
            } else {
                MIN_INTERVAL_MS as int
            },
            exists|t: int, m: int, j: int|
                {
                    &&& 0 <= t < PPM as int
                    &&& 0 <= m < PPM as int
                    &&& 0 <= j < PPM as int
                    &&& r as int == spec_interval_value(
                        base_interval_ms as int,
                        #[trigger] spec_tier_multiplier_milli(t, m),
                        #[trigger] spec_jitter_milli(j),
                    )
                },
    {
        let tier_draw = rand_unit_ppm();
        let mult_frac = rand_unit_ppm();
        let jitter_frac = rand_unit_ppm();
        let r = Self::interval_from_draws(base_interval_ms, tier_draw, mult_frac, jitter_frac);
        proof {
            assert(r as int == spec_interval_value(
                base_interval_ms as int,
                spec_tier_multiplier_milli(tier_draw as int, mult_frac as int),
                spec_jitter_milli(jitter_frac as int),
            ));
        }
        r
    }

    /// The amount given draws pick: the verified arithmetic behind
    /// [`WalletPool::generate_random_amount`].
    pub fn amount_from_draws(min_amount: u64, max_amount: u64, tier_draw: u64, frac_draw: u64)
        -> (r: u64)
        requires
            min_amount <= max_amount,
            max_amount + AMOUNT_STEP / 2 <= u64::MAX,
            tier_draw < PPM,
            frac_draw < PPM,
        ensures
            ({
                let f = spec_amount_fraction_ppm(tier_draw as int, frac_draw as int);
                let raw = spec_raw_amount(min_amount as int, max_amount as int, f);
                &&& r as int == crate::arith::spec_round_to_step(raw, AMOUNT_STEP as int)
                &&& min_amount <= raw <= max_amount
            }),
            r % AMOUNT_STEP == 0,
            r + AMOUNT_STEP / 2 >= min_amount,
            r <= max_amount + AMOUNT_STEP / 2,
    {
        let f: u64 = if tier_draw < 600_000 {
            400_000 * frac_draw / PPM
        } else if tier_draw < 900_000 {
            400_000 + 400_000 * frac_draw / PPM
        } else {
            800_000 + 200_000 * frac_draw / PPM
        };
        proof {
            assert(400_000 * (frac_draw as int) / (PPM as int) < 400_000 && 400_000 * (
            frac_draw as int) / (PPM as int) >= 0) by (nonlinear_arith)
                requires 0 <= frac_draw < PPM as int;
            assert(200_000 * (frac_draw as int) / (PPM as int) < 200_000 && 200_000 * (
            frac_draw as int) / (PPM as int) >= 0) by (nonlinear_arith)
                requires 0 <= frac_draw < PPM as int;
            assert(f < PPM);
            lemma_amount_in_range(min_amount as int, max_amount as int, f as int);
        }
        let range: u64 = max_amount - min_amount;
        let add128: u128 = mul_wide(range, f) / (PPM as u128);
        proof {
            assert(add128 <= range) by (nonlinear_arith)
                requires
                    add128 == (range as int) * (f as int) / (PPM as int),
                    0 <= f < PPM,
                    range >= 0,
            ;
        }
        let raw: u64 = min_amount + (add128 as u64);
        round_to_step(raw, AMOUNT_STEP)
    }

    /// A randomized trading amount: a three-tier mixture over the range,
    /// rounded to the amount step; the pre-rounding value always lies in the
    /// configured range, so the result strays from it by at most half a
    /// step. The result is always the rounded amount of some pair of
    /// uniform draws.
    pub fn generate_random_amount(&self, min_amount: u64, max_amount: u64) -> (r: u64)
        requires
            min_amount <= max_amount,
            max_amount + AMOUNT_STEP / 2 <= u64::MAX,
        ensures
            r % AMOUNT_STEP == 0,
            r + AMOUNT_STEP / 2 >= min_amount,
            r <= max_amount + AMOUNT_STEP / 2,
            exists|t: int, q: int|
                {
                    &&& 0 <= t < PPM as int
                    &&& 0 <= q < PPM as int
                    &&& {
                        let raw = spec_raw_amount(
                            min_amount as int,
                            max_amount as int,
                            #[trigger] spec_amount_fraction_ppm(t, q),
                        );
                        min_amount <= raw <= max_amount && r as int
                            == crate::arith::spec_round_to_step(raw, AMOUNT_STEP as int)
                    }
                },
    {
        let tier_draw = rand_unit_ppm();
        let frac_draw = rand_unit_ppm();
        let r = Self::amount_from_draws(min_amount, max_amount, tier_draw, frac_draw);
        proof {
            let raw = spec_raw_amount(
                min_amount as int,
                max_amount as int,
                spec_amount_fraction_ppm(tier_draw as int, frac_draw as int),
            );
            assert(min_amount <= raw <= max_amount && r as int
                == crate::arith::spec_round_to_step(raw, AMOUNT_STEP as int));
        }
        r
    }

    /// The adjusted buy probability: the verified arithmetic behind
    /// [`WalletPool::should_buy_next`].
    pub fn buy_probability_ppm(recent_trades: &Vec<TradeType>, target_buy_ratio_ppm: u64) -> (r:
        u64)
        requires
            recent_trades@.len() > 0,
        ensures
            r as int == spec_buy_probability_ppm(recent_trades@, target_buy_ratio_ppm),
            r <= PPM,
    {
        let len = recent_trades.len();
        let count: usize = if len >= 10 {
            10
        } else {
            len
        };
        let start = len - count;
        let ghost window = recent_trades@.subrange(len - count, len as int);
        let mut buys: u64 = 0;
        let mut i: usize = 0;
        proof {
            assert(window.subrange(0, 0) =~= Seq::<TradeType>::empty());
        }
        while i < count
            invariant
                0 <= i <= count,
                start == len - count,
                count <= len == recent_trades@.len(),
                window == recent_trades@.subrange(start as int, len as int),
                buys == spec_count_buys(window.subrange(0, i as int)),
                buys <= i,
            decreases count - i,
        {
            proof {
                assert(window.subrange(0, i + 1).drop_last() =~= window.subrange(0, i as int));
                assert(window.subrange(0, i + 1).last() == window[i as int]);
                assert(window[i as int] == recent_trades@[start + i]);
            }
            match recent_trades[start + i] {
                TradeType::Buy => {
                    buys += 1;
                },
                TradeType::Sell => {},
            }
            i += 1;
        }
        proof {
            assert(window.subrange(0, count as int) =~= window);
        }
        let lhs: u128 = mul_wide(buys, PPM);
        let target_times_count: u128 = mul_wide(target_buy_ratio_ppm, count as u64);
        let slack_times_count: u128 = mul_wide(100_000, count as u64);
        proof {
            assert(target_times_count <= (u64::MAX as int) * 10 && slack_times_count <= 100_000
                * 10) by (nonlinear_arith)
                requires
                    target_times_count == (target_buy_ratio_ppm as int) * (count as int),
                    slack_times_count == 100_000 * (count as int),
                    0 <= target_buy_ratio_ppm <= u64::MAX,
                    0 <= count <= 10,
            ;
            assert(target_times_count + slack_times_count <= u128::MAX);
            assert((target_buy_ratio_ppm as int + 100_000) * (count as int) == (
            target_buy_ratio_ppm as int) * (count as int) + 100_000 * (count as int))
                by (nonlinear_arith);
        }
        let raw: u64 = if lhs < target_times_count {
            target_buy_ratio_ppm.saturating_add(100_000)
        } else if lhs > target_times_count + slack_times_count {
            target_buy_ratio_ppm.saturating_sub(200_000)
        } else {
            target_buy_ratio_ppm
        };
        if raw > PPM {
            PPM
        } else {
            raw
        }
    }

    /// Whether the next trade should be a buy: with no recorded trades it
    /// always is; otherwise a draw is taken against the adjusted buy
    /// probability, so a zero probability forces a sell and a full one
    /// forces a buy.
    pub fn should_buy_next(&self, recent_trades: &Vec<TradeType>, target_buy_ratio_ppm: u64) -> (r:
        bool)
        ensures
            recent_trades@.len() == 0 ==> r,
            recent_trades@.len() > 0 ==> {
                let p = spec_buy_probability_ppm(recent_trades@, target_buy_ratio_ppm);
                &&& (p == 0 ==> !r)
                &&& (p >= PPM ==> r)
            },
    {
        if recent_trades.len() == 0 {
            return true;
        }
        let p = Self::buy_probability_ppm(recent_trades, target_buy_ratio_ppm);
        let draw = rand_unit_ppm();
        draw < p
    }
}

/// Direction of one recorded trade.
#[derive(Debug, Clone, Copy, PartialEq, Eq, Structural)]
pub enum TradeType {
    Buy,
    Sell,
}

/// Intervals never fall below this floor, in milliseconds.
pub const MIN_INTERVAL_MS: u64 = 1000;

/// The interval multiplier a tier draw and a fraction draw pick, in
/// thousandths: 70 percent of draws land in 0.5x-2x, 20 percent in 2x-5x,
/// 10 percent in 5x-10x.
pub open spec fn spec_tier_multiplier_milli(tier_draw: int, mult_frac: int) -> int {
    if tier_draw < 700_000 {
        500 + mult_frac * 1500 / (PPM as int)
    } else if tier_draw < 900_000 {
        2000 + mult_frac * 3000 / (PPM as int)
    } else {
        5000 + mult_frac * 5000 / (PPM as int)
    }
}

/// The jitter multiplier a fraction draw picks, in thousandths: 0.9x-1.1x.
pub open spec fn spec_jitter_milli(jitter_frac: int) -> int {
    900 + jitter_frac * 200 / (PPM as int)
}

/// The generated interval: base times tier multiplier times jitter (floor
/// arithmetic), capped at the machine word and floored at
/// [`MIN_INTERVAL_MS`].
pub open spec fn spec_interval_value(base_ms: int, m_milli: int, j_milli: int) -> int {
    let v = base_ms * m_milli / 1000 * j_milli / 1000;
    let capped = if v > u64::MAX as int {
        u64::MAX as int
    } else {
        v
    };
    if capped < MIN_INTERVAL_MS as int {
        MIN_INTERVAL_MS as int
    } else {
        capped
    }
}

/// Law: the tier multiplier always lies in the band its tier documents.
pub proof fn lemma_tier_multiplier_bands(tier_draw: int, mult_frac: int)
    requires
        0 <= tier_draw < PPM as int,
        0 <= mult_frac < PPM as int,
    ensures
        tier_draw < 700_000 ==> 500 <= spec_tier_multiplier_milli(tier_draw, mult_frac) < 2000,
        700_000 <= tier_draw < 900_000 ==> 2000 <= spec_tier_multiplier_milli(
            tier_draw,
            mult_frac,
        ) < 5000,
        900_000 <= tier_draw ==> 5000 <= spec_tier_multiplier_milli(tier_draw, mult_frac) < 10000,
    {
    assert(mult_frac * 1500 / (PPM as int) < 1500 && mult_frac * 1500 >= 0) by (nonlinear_arith)
        requires 0 <= mult_frac < PPM as int;
    assert(mult_frac * 3000 / (PPM as int) < 3000 && mult_frac * 3000 >= 0) by (nonlinear_arith)
        requires 0 <= mult_frac < PPM as int;
    assert(mult_frac * 5000 / (PPM as int) < 5000 && mult_frac * 5000 >= 0) by (nonlinear_arith)
        requires 0 <= mult_frac < PPM as int;
    assert(mult_frac * 1500 / (PPM as int) >= 0) by (nonlinear_arith)
        requires mult_frac >= 0;
    assert(mult_frac * 3000 / (PPM as int) >= 0) by (nonlinear_arith)
        requires mult_frac >= 0;
    assert(mult_frac * 5000 / (PPM as int) >= 0) by (nonlinear_arith)
        requires mult_frac >= 0;
}

/// Law: the jitter multiplier always lies in the 0.9x-1.1x band.
pub proof fn lemma_jitter_band(jitter_frac: int)
    requires
        0 <= jitter_frac < PPM as int,
    ensures
        900 <= spec_jitter_milli(jitter_frac) < 1100,
{
    assert(jitter_frac * 200 / (PPM as int) < 200 && jitter_frac * 200 / (PPM as int) >= 0)
        by (nonlinear_arith)
        requires 0 <= jitter_frac < PPM as int;
}

/// Law: the generated interval never falls below the floor and never exceeds
/// eleven times the base (ten times from the largest tier, within the 1.1x
/// jitter), unless the floor itself is larger.
pub proof fn lemma_interval_band(base_ms: int, m_milli: int, j_milli: int)
    requires
        base_ms >= 0,
        0 <= m_milli < 10000,
        0 <= j_milli < 1100,
    ensures
        spec_interval_value(base_ms, m_milli, j_milli) >= MIN_INTERVAL_MS as int,
        spec_interval_value(base_ms, m_milli, j_milli) <= if base_ms * 11 > MIN_INTERVAL_MS as int {
            base_ms * 11
        } else {
            MIN_INTERVAL_MS as int
        },
{
    let a = base_ms * m_milli / 1000;
    assert(a <= base_ms * 10 && a >= 0) by (nonlinear_arith)
        requires base_ms >= 0 && 0 <= m_milli < 10000 && a == base_ms * m_milli / 1000;
    let v = a * j_milli / 1000;
    assert(v <= a * 11 / 10 && v >= 0) by (nonlinear_arith)
        requires a >= 0 && 0 <= j_milli < 1100 && v == a * j_milli / 1000;
    assert(a * 11 / 10 <= base_ms * 10 * 11 / 10) by (nonlinear_arith)
        requires 0 <= a <= base_ms * 10;
    assert(base_ms * 10 * 11 / 10 == base_ms * 11) by (nonlinear_arith);
}

/// The fraction of the amount range a tier draw and a fraction draw pick, in
/// parts per million: 60 percent of draws land in the lower 40 percent of
/// the range, 30 percent in the middle 40, 10 percent in the top 20.
pub open spec fn spec_amount_fraction_ppm(tier_draw: int, frac_draw: int) -> int {
    if tier_draw < 600_000 {
        400_000 * frac_draw / (PPM as int)
    } else if tier_draw < 900_000 {
        400_000 + 400_000 * frac_draw / (PPM as int)
    } else {
        800_000 + 200_000 * frac_draw / (PPM as int)
    }
}

/// The generated amount before rounding: the range fraction above the
/// minimum, in floor arithmetic.
pub open spec fn spec_raw_amount(min_amount: int, max_amount: int, fraction_ppm: int) -> int {
    min_amount + (max_amount - min_amount) * fraction_ppm / (PPM as int)
}

/// Law: the raw amount always lies inside the configured range.
pub proof fn lemma_amount_in_range(min_amount: int, max_amount: int, fraction_ppm: int)
    requires
        0 <= min_amount <= max_amount,
        0 <= fraction_ppm < PPM as int,
    ensures
        min_amount <= spec_raw_amount(min_amount, max_amount, fraction_ppm) <= max_amount,
{
    let range = max_amount - min_amount;
    assert(0 <= range * fraction_ppm / (PPM as int) <= range) by (nonlinear_arith)
        requires range >= 0 && 0 <= fraction_ppm < PPM as int;
}

/// Law: rounding to the amount step keeps a value inside a range whose ends
/// are themselves multiples of the step.
pub proof fn lemma_rounding_stays_in_band(min_amount: int, max_amount: int, x: int)
    requires
        0 <= min_amount <= x <= max_amount,
        min_amount % (AMOUNT_STEP as int) == 0,
        max_amount % (AMOUNT_STEP as int) == 0,
    ensures
        min_amount <= crate::arith::spec_round_to_step(x, AMOUNT_STEP as int) <= max_amount,
{
    let step = AMOUNT_STEP as int;
    let half = step / 2;
    let q = (x + half) / step;
    let qmin = min_amount / step;
    let qmax = max_amount / step;
    vstd::arithmetic::div_mod::lemma_fundamental_div_mod(min_amount, step);
    vstd::arithmetic::div_mod::lemma_fundamental_div_mod(max_amount, step);
    assert(qmin * step == min_amount) by (nonlinear_arith)
        requires min_amount == step * qmin + min_amount % step && min_amount % step == 0;
    assert(qmax * step == max_amount) by (nonlinear_arith)
        requires max_amount == step * qmax + max_amount % step && max_amount % step == 0;
    assert((min_amount + half) / step == qmin) by (nonlinear_arith)
        requires qmin * step == min_amount && 0 <= half < step && min_amount >= 0;
    assert((max_amount + half) / step == qmax) by (nonlinear_arith)
        requires qmax * step == max_amount && 0 <= half < step && max_amount >= 0;
    assert(q >= qmin) by (nonlinear_arith)
        requires
            q == (x + half) / step,
            qmin == (min_amount + half) / step,
            x >= min_amount,
            step > 0,
    ;
    assert(q <= qmax) by (nonlinear_arith)
        requires
            q == (x + half) / step,
            qmax == (max_amount + half) / step,
            x <= max_amount,
            step > 0,
    ;
    assert(qmin * step <= q * step <= qmax * step) by (nonlinear_arith)
        requires qmin <= q <= qmax && step > 0;
}

/// How many of the recorded trades are buys.
pub open spec fn spec_count_buys(s: Seq<TradeType>) -> int
    decreases s.len(),
{
    if s.len() == 0 {
        0
    } else {
        spec_count_buys(s.drop_last()) + if s.last() == TradeType::Buy {
            1int
        } else {
            0int
        }
    }
}

/// The buy probability for the next trade, in parts per million: the target
/// ratio, raised by a tenth when the recent window shows too few buys,
/// lowered by a fifth when it shows too many, and clamped to a probability.
pub open spec fn spec_buy_probability_ppm(recent: Seq<TradeType>, target_ppm: u64) -> int
    recommends
        recent.len() > 0,
{
    let count = if recent.len() >= 10 {
        10int
    } else {
        recent.len() as int
    };
    let window = recent.subrange(recent.len() - count, recent.len() as int);
    let buys = spec_count_buys(window);
    let t = target_ppm as int;
    let raw = if buys * (PPM as int) < t * count {
        t + 100_000
    } else if buys * (PPM as int) > (t + 100_000) * count {
        if t >= 200_000 {
            t - 200_000
        } else {
            0
        }
    } else {
        t
    };
    if raw > PPM as int {
        PPM as int
    } else {
        raw
    }
}

/// Tunables for the randomized trading behaviour. Amounts are in lamports,
/// intervals in milliseconds, the buy/sell ratio in parts per million.
#[derive(Debug, Clone, Copy, PartialEq, Eq, Structural)]
pub struct RandomizationConfig {
    pub min_amount_lamports: u64,
    pub max_amount_lamports: u64,
    pub base_buy_interval_ms: u64,
    pub base_sell_interval_ms: u64,
    pub buy_sell_ratio_ppm: u64,
    pub wallet_rotation_frequency: u32,
    pub enable_realistic_pauses: bool,
    pub max_consecutive_same_wallet: u32,
}

impl RandomizationConfig {
    /// The standard configuration.
    pub open spec fn spec_default() -> RandomizationConfig {
        RandomizationConfig {
            min_amount_lamports: 30_000_000,
            max_amount_lamports: 550_000_000,
            base_buy_interval_ms: 600_000,
            base_sell_interval_ms: 900_000,
            buy_sell_ratio_ppm: 700_000,
            wallet_rotation_frequency: 3,
            enable_realistic_pauses: true,
            max_consecutive_same_wallet: 5,
        }
    }

    /// A stealth configuration: the amount range comes from the embedder's
    /// environment, the pacing is twice as slow and wallets rotate faster.
    pub fn stealth_mode(min_stealth_amount: u64, max_stealth_amount: u64) -> (r:
        RandomizationConfig)
        ensures
            r == (RandomizationConfig {
                min_amount_lamports: min_stealth_amount,
                max_amount_lamports: max_stealth_amount,
                base_buy_interval_ms: 1_200_000,
                base_sell_interval_ms: 1_800_000,
                buy_sell_ratio_ppm: 700_000,
                wallet_rotation_frequency: 2,
                enable_realistic_pauses: true,
                max_consecutive_same_wallet: 3,
            }),
    {
        RandomizationConfig {
            min_amount_lamports: min_stealth_amount,
            max_amount_lamports: max_stealth_amount,
            base_buy_interval_ms: 1_200_000,
            base_sell_interval_ms: 1_800_000,
            buy_sell_ratio_ppm: 700_000,
            wallet_rotation_frequency: 2,
            enable_realistic_pauses: true,
            max_consecutive_same_wallet: 3,
        }
    }

    /// A conservative configuration: smaller amounts, a faster base pace, a
    /// lower buy ratio and slower wallet rotation.
    pub fn conservative_mode() -> (r: RandomizationConfig)
        ensures
            r == (RandomizationConfig {
                min_amount_lamports: 50_000_000,
                max_amount_lamports: 300_000_000,
                base_buy_interval_ms: 30_000,
                base_sell_interval_ms: 45_000,
                buy_sell_ratio_ppm: 650_000,
                wallet_rotation_frequency: 5,
                enable_realistic_pauses: true,
                max_consecutive_same_wallet: 7,
            }),
    {
        RandomizationConfig {
            min_amount_lamports: 50_000_000,
            max_amount_lamports: 300_000_000,
            base_buy_interval_ms: 30_000,
            base_sell_interval_ms: 45_000,
            buy_sell_ratio_ppm: 650_000,
            wallet_rotation_frequency: 5,
            enable_realistic_pauses: true,
            max_consecutive_same_wallet: 7,
        }
    }
}

impl Default for RandomizationConfig {
    /// The standard configuration.
    fn default() -> (r: Self)
        ensures
            r == RandomizationConfig::spec_default(),
    {
        RandomizationConfig {
            min_amount_lamports: 30_000_000,
            max_amount_lamports: 550_000_000,
            base_buy_interval_ms: 600_000,
            base_sell_interval_ms: 900_000,
            buy_sell_ratio_ppm: 700_000,
            wallet_rotation_frequency: 3,
            enable_realistic_pauses: true,
            max_consecutive_same_wallet: 5,
        }
    }
}

/// The identity after one selection: its usage count up one (saturating).
pub open spec fn spec_usage_bumped(w: WalletInfo) -> WalletInfo {
    WalletInfo {
        usage_count: if w.usage_count == u32::MAX { u32::MAX } else { (w.usage_count + 1) as u32 },
        ..w
    }
}

} // verus!
