//! Trading orchestration and resilient transaction delivery.
//!
//! The crate models an automated organic-trading system against a single
//! liquidity pool: a price monitor that throttles on sharp rises, a wallet
//! pool with behavioural profiles and weighted selection, a phase state
//! machine that paces activity over long horizons, a progressive buy/sell
//! orchestrator, and the tiered transaction-delivery strategies.
//!
//! All quantities are fixed-point integers: amounts in lamports, times in
//! milliseconds, probabilities in parts per million (`rng::PPM`), multipliers
//! in thousandths. Randomness comes from the wrappers in `rng`; wall-clock
//! time is handed in by the caller as a millisecond timestamp.

#![verifier::loop_isolation(false)]

pub mod arith;
pub mod price_monitor;
pub mod random_trader;
pub mod rng;
pub mod tx;
pub mod volume_waves;
pub mod wallet_pool;
