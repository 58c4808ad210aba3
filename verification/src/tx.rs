//! Tiered transaction delivery: the send configurations of the four
//! strategies, the retry policies for urgent sells and relay submission,
//! and the relay request framing and response classification.
//!
//! The network calls themselves are the embedder's: it performs one send per
//! attempt and hands the outcomes back; the policies here decide, exactly,
//! what is retried, what is waited, and what is reported. A caller must
//! treat a reported failure as an unknown delivery state: the network may
//! have accepted a transaction despite a client-side error.

use vstd::prelude::*;
use vstd::string::StringSliceAdditionalSpecFns;

verus! {

/// How many full attempts an urgent sell makes before giving up.
pub const FORCE_SELL_MAX_ATTEMPTS: u32 = 3;

/// The wait between urgent-sell attempts, in milliseconds.
pub const FORCE_SELL_BACKOFF_MS: u64 = 200;

/// How many network-level retries each urgent-sell send asks for.
pub const FORCE_SELL_RPC_RETRIES: u32 = 5;

/// How many times a relay submission is attempted before giving up.
pub const RELAY_MAX_RETRIES: u32 = 3;

/// The wait between relay attempts, in milliseconds.
pub const RELAY_RETRY_DELAY_MS: u64 = 500;

/// The fixed tip paid to the relay, in lamports.
pub const RELAY_TIP_LAMPORTS: u64 = 100_000;

/// The commitment level asked of the network during preflight.
#[derive(Debug, Clone, Copy, PartialEq, Eq, Structural)]
pub enum CommitmentLevel {
    Processed,
    Finalized,
}

/// The send configuration handed to the RPC capability.
#[derive(Debug, Clone, Copy, PartialEq, Eq, Structural)]
pub struct RpcSendConfig {
    pub skip_preflight: bool,
    pub preflight_commitment: CommitmentLevel,
    pub max_retries: u32,
}

/// The fast strategy's configuration: verification skipped, processed-level
/// preflight, three network retries, no confirmation wait. Used for buys,
/// where failure is tolerable.
pub fn fast_send_config() -> (c: RpcSendConfig)
    ensures
        c == (RpcSendConfig {
            skip_preflight: true,
            preflight_commitment: CommitmentLevel::Processed,
            max_retries: 3,
        }),
{
    RpcSendConfig {
        skip_preflight: true,
        preflight_commitment: CommitmentLevel::Processed,
        max_retries: 3,
    }
}

/// The urgent-sell configuration: verification on, processed-level
/// preflight, five network retries per send.
pub fn force_sell_send_config() -> (c: RpcSendConfig)
    ensures
        c == (RpcSendConfig {
            skip_preflight: false,
            preflight_commitment: CommitmentLevel::Processed,
            max_retries: FORCE_SELL_RPC_RETRIES as u32,
        }),
{
    RpcSendConfig {
        skip_preflight: false,
        preflight_commitment: CommitmentLevel::Processed,
        max_retries: FORCE_SELL_RPC_RETRIES,
    }
}

/// The on-chain probing configuration: all simulation bypassed, finalized
/// preflight commitment, no retries, so the exact on-chain error shows.
pub fn probe_send_config() -> (c: RpcSendConfig)
    ensures
        c == (RpcSendConfig {
            skip_preflight: true,
            preflight_commitment: CommitmentLevel::Finalized,
            max_retries: 0,
        }),
{
    RpcSendConfig {
        skip_preflight: true,
        preflight_commitment: CommitmentLevel::Finalized,
        max_retries: 0,
    }
}

/// Why a delivery failed.
#[derive(Debug, Clone, PartialEq, Eq)]
pub enum DeliveryError {
    /// The network reported an error on the last attempt; its text.
    Network(String),
    /// The relay reported success but named no signature.
    EmptySignatures,
    /// The relay reported an application-level rejection; its message.
    RelayRejected(String),
}

/// What a delivery run reports: the outcome, how many attempts were made,
/// and how many waits stood between them.
#[derive(Debug, PartialEq, Eq)]
pub struct DeliveryReport {
    pub result: Result<Vec<String>, DeliveryError>,
    pub attempts_used: u32,
    pub backoff_waits: u32,
}

/// A single-attempt strategy's outcome: a signature becomes the one-element
/// delivery, an error surfaces immediately.
pub fn single_attempt_outcome(outcome: Result<String, String>) -> (r: Result<
    Vec<String>,
    DeliveryError,
>)
    ensures
        outcome is Ok ==> r is Ok && r->Ok_0@.len() == 1 && r->Ok_0@[0] == outcome->Ok_0,
        outcome is Err ==> r == Result::<Vec<String>, DeliveryError>::Err(
            DeliveryError::Network(outcome->Err_0),
        ),
{
    match outcome {
        Ok(signature) => {
            let mut v: Vec<String> = Vec::new();
            v.push(signature);
            Ok(v)
        },
        Err(e) => Err(DeliveryError::Network(e)),
    }
}

/// First index whose outcome is a success, or the length when all failed.
pub open spec fn spec_first_ok<T, E>(outcomes: Seq<Result<T, E>>) -> int
    decreases outcomes.len(),
{
    if outcomes.len() == 0 {
        0
    } else if outcomes[0] is Ok {
        0
    } else {
        1 + spec_first_ok(outcomes.drop_first())
    }
}

proof fn lemma_first_ok_scan<T, E>(outcomes: Seq<Result<T, E>>, i: int)
    requires
        0 <= i <= outcomes.len(),
        forall|j: int| 0 <= j < i ==> (#[trigger] outcomes[j]) is Err,
        i < outcomes.len() ==> outcomes[i] is Ok,
    ensures
        spec_first_ok(outcomes) == i,
    decreases outcomes.len(),
{
    if outcomes.len() == 0 {
    } else if outcomes[0] is Ok {
        assert(i == 0);
    } else {
        assert(i >= 1);
        let t = outcomes.drop_first();
        assert forall|j: int| 0 <= j < i - 1 implies (#[trigger] t[j]) is Err by {
            assert(t[j] == outcomes[j + 1]);
        }
        if i - 1 < t.len() {
            assert(t[i - 1] == outcomes[i]);
        }
        lemma_first_ok_scan(t, i - 1);
    }
}

/// Runs the urgent-sell retry policy over the outcomes the network returns
/// on each attempt: up to three attempts with a fixed backoff between them,
/// success on the first accepted send, the last error reported only after
/// every attempt is exhausted. The first `FORCE_SELL_MAX_ATTEMPTS` entries
/// of `outcomes` stand for the network's answers, in order.
pub fn force_sell_attempts(outcomes: Vec<Result<String, String>>) -> (report: DeliveryReport)
    requires
        outcomes@.len() >= FORCE_SELL_MAX_ATTEMPTS,
    ensures
        ({
            let n = FORCE_SELL_MAX_ATTEMPTS as int;
            let f = spec_first_ok(outcomes@.take(n));
            &&& f < n ==> {
                &&& report.attempts_used == f + 1
                &&& report.backoff_waits == f
                &&& report.result is Ok
                &&& report.result->Ok_0@.len() == 1
                &&& report.result->Ok_0@[0] == outcomes@[f]->Ok_0
            }
            &&& f == n ==> {
                &&& report.attempts_used == n
                &&& report.backoff_waits == n - 1
                &&& report.result == Result::<Vec<String>, DeliveryError>::Err(
                    DeliveryError::Network(outcomes@[n - 1]->Err_0),
                )
            }
        }),
{
    let mut pending = outcomes;
    let ghost taken = pending@.take(FORCE_SELL_MAX_ATTEMPTS as int);
    let mut attempt: u32 = 0;
    let mut waits: u32 = 0;
    while attempt < FORCE_SELL_MAX_ATTEMPTS
        invariant
            0 <= attempt <= FORCE_SELL_MAX_ATTEMPTS,
            pending@ == outcomes@,
            pending@.len() >= FORCE_SELL_MAX_ATTEMPTS,
            taken == pending@.take(FORCE_SELL_MAX_ATTEMPTS as int),
            forall|j: int| 0 <= j < attempt ==> (#[trigger] taken[j]) is Err,
            waits == if attempt == 0 {
                0int
            } else {
                attempt - 1
            },
        decreases FORCE_SELL_MAX_ATTEMPTS - attempt,
    {
        if attempt > 0 {
            waits += 1;
        }
        let idx = attempt as usize;
        proof {
            assert(taken[idx as int] == pending@[idx as int]);
        }
        let won = match &pending[idx] {
            Ok(_) => true,
            Err(_) => false,
        };
        if won {
            proof {
                lemma_first_ok_scan(taken, idx as int);
            }
            let got = pending.remove(idx);
            match got {
                Ok(signature) => {
                    let mut v: Vec<String> = Vec::new();
                    v.push(signature);
                    return DeliveryReport {
                        result: Ok(v),
                        attempts_used: attempt + 1,
                        backoff_waits: waits,
                    };
                },
                Err(_) => {
                    proof {
                        assert(false);
                    }
                },
            }
        }
        attempt += 1;
    }
    proof {
        lemma_first_ok_scan(taken, FORCE_SELL_MAX_ATTEMPTS as int);
        assert(taken[FORCE_SELL_MAX_ATTEMPTS - 1] == pending@[FORCE_SELL_MAX_ATTEMPTS - 1]);
    }
    let last = pending.remove((FORCE_SELL_MAX_ATTEMPTS - 1) as usize);
    match last {
        Err(e) => DeliveryReport {
            result: Err(DeliveryError::Network(e)),
            attempts_used: FORCE_SELL_MAX_ATTEMPTS,
            backoff_waits: FORCE_SELL_MAX_ATTEMPTS - 1,
        },
        Ok(_) => {
            proof {
                assert(false);
            }
            DeliveryReport { result: Err(DeliveryError::EmptySignatures), attempts_used: 0, backoff_waits: 0 }
        },
    }
}

/// The relay's verdict on one response: delivery succeeds only when the
/// relay reports success and names at least one signature; a successful
/// report without signatures and an application-level rejection both fail
/// the attempt.
pub fn classify_relay_response(success: bool, signatures: Vec<String>, message: String) -> (r:
    Result<Vec<String>, DeliveryError>)
    ensures
        success && signatures@.len() > 0 ==> r is Ok && r->Ok_0 == signatures,
        success && signatures@.len() == 0 ==> r == Result::<Vec<String>, DeliveryError>::Err(
            DeliveryError::EmptySignatures,
        ),
        !success ==> r == Result::<Vec<String>, DeliveryError>::Err(
            DeliveryError::RelayRejected(message),
        ),
{
    if !success {
        Err(DeliveryError::RelayRejected(message))
    } else if signatures.len() == 0 {
        Err(DeliveryError::EmptySignatures)
    } else {
        Ok(signatures)
    }
}

/// Runs the relay retry policy over the classified outcome of each attempt:
/// up to three attempts with a fixed delay between them, success on the
/// first delivered batch, the last error reported only after every attempt
/// failed. The first `RELAY_MAX_RETRIES` entries of `attempts` stand for
/// the classified responses, in order.
pub fn relay_attempts(attempts: Vec<Result<Vec<String>, DeliveryError>>) -> (report:
    DeliveryReport)
    requires
        attempts@.len() >= RELAY_MAX_RETRIES,
    ensures
        ({
            let n = RELAY_MAX_RETRIES as int;
            let f = spec_first_ok(attempts@.take(n));
            &&& f < n ==> {
                &&& report.attempts_used == f + 1
                &&& report.backoff_waits == f
                &&& report.result is Ok
                &&& report.result->Ok_0 == attempts@[f]->Ok_0
            }
            &&& f == n ==> {
                &&& report.attempts_used == n
                &&& report.backoff_waits == n - 1
                &&& report.result is Err
                &&& report.result->Err_0 == attempts@[n - 1]->Err_0
            }
        }),
{
    let mut pending = attempts;
    let ghost taken = pending@.take(RELAY_MAX_RETRIES as int);
    let mut attempt: u32 = 0;
    let mut waits: u32 = 0;
    while attempt < RELAY_MAX_RETRIES
        invariant
            0 <= attempt <= RELAY_MAX_RETRIES,
            pending@ == attempts@,
            pending@.len() >= RELAY_MAX_RETRIES,
            taken == pending@.take(RELAY_MAX_RETRIES as int),
            forall|j: int| 0 <= j < attempt ==> (#[trigger] taken[j]) is Err,
            waits == if attempt == 0 {
                0int
            } else {
                attempt - 1
            },
        decreases RELAY_MAX_RETRIES - attempt,
    {
        if attempt > 0 {
            waits += 1;
        }
        let idx = attempt as usize;
        proof {
            assert(taken[idx as int] == pending@[idx as int]);
        }
        let won = match &pending[idx] {
            Ok(_) => true,
            Err(_) => false,
        };
        if won {
            proof {
                lemma_first_ok_scan(taken, idx as int);
            }
            let got = pending.remove(idx);
            match got {
                Ok(signatures) => {
                    return DeliveryReport {
                        result: Ok(signatures),
                        attempts_used: attempt + 1,
                        backoff_waits: waits,
                    };
                },
                Err(_) => {
                    proof {
                        assert(false);
                    }
                },
            }
        }
        attempt += 1;
    }
    proof {
        lemma_first_ok_scan(taken, RELAY_MAX_RETRIES as int);
        assert(taken[RELAY_MAX_RETRIES - 1] == pending@[RELAY_MAX_RETRIES - 1]);
    }
    let last = pending.remove((RELAY_MAX_RETRIES - 1) as usize);
    match last {
        Err(e) => DeliveryReport {
            result: Err(e),
            attempts_used: RELAY_MAX_RETRIES,
            backoff_waits: RELAY_MAX_RETRIES - 1,
        },
        Ok(_) => {
            proof {
                assert(false);
            }
            DeliveryReport { result: Err(DeliveryError::EmptySignatures), attempts_used: 0, backoff_waits: 0 }
        },
    }
}

/// A strategy's retry schedule, driven attempt by attempt by the embedder:
/// it decides whether another attempt may be made and how long to wait
/// before it, and counts the attempts made.
#[derive(Debug, Clone, Copy, PartialEq, Eq, Structural)]
pub struct RetrySchedule {
    max_attempts: u32,
    wait_between_ms: u64,
    attempts_made: u32,
}

impl RetrySchedule {
    /// How many attempts the schedule allows in all.
    pub closed spec fn max_attempts(self) -> u32 {
        self.max_attempts
    }

    /// The wait between two attempts, in milliseconds.
    pub closed spec fn wait_between(self) -> u64 {
        self.wait_between_ms
    }

    /// How many attempts have been made.
    pub closed spec fn attempts_made(self) -> u32 {
        self.attempts_made
    }

    /// The urgent-sell schedule: three attempts, the fixed backoff between
    /// them, none made yet.
    pub fn force_sell() -> (r: RetrySchedule)
        ensures
            r.max_attempts() == FORCE_SELL_MAX_ATTEMPTS,
            r.wait_between() == FORCE_SELL_BACKOFF_MS,
            r.attempts_made() == 0,
    {
        RetrySchedule {
            max_attempts: FORCE_SELL_MAX_ATTEMPTS,
            wait_between_ms: FORCE_SELL_BACKOFF_MS,
            attempts_made: 0,
        }
    }

    /// The relay schedule: three attempts, the fixed delay between them,
    /// none made yet.
    pub fn relay() -> (r: RetrySchedule)
        ensures
            r.max_attempts() == RELAY_MAX_RETRIES,
            r.wait_between() == RELAY_RETRY_DELAY_MS,
            r.attempts_made() == 0,
    {
        RetrySchedule {
            max_attempts: RELAY_MAX_RETRIES,
            wait_between_ms: RELAY_RETRY_DELAY_MS,
            attempts_made: 0,
        }
    }

    /// Whether another attempt may still be made.
    pub fn should_attempt(&self) -> (r: bool)
        ensures
            r <==> self.attempts_made() < self.max_attempts(),
    {
        self.attempts_made < self.max_attempts
    }

    /// The wait before the next attempt: none before the first, the fixed
    /// wait between any two.
    pub fn wait_before_next_ms(&self) -> (r: u64)
        ensures
            r == if self.attempts_made() == 0 {
                0int
            } else {
                self.wait_between() as int
            },
    {
        if self.attempts_made == 0 {
            0
        } else {
            self.wait_between_ms
        }
    }

    /// Counts one attempt as made.
    pub fn record_attempt(&mut self)
        requires
            old(self).attempts_made() < old(self).max_attempts(),
        ensures
            final(self).attempts_made() == old(self).attempts_made() + 1,
            final(self).max_attempts() == old(self).max_attempts(),
            final(self).wait_between() == old(self).wait_between(),
    {
        self.attempts_made = self.attempts_made + 1;
    }
}

/// What the relay's base64 encoding of given bytes is. Standard alphabet
/// with padding: a pure function of the input bytes alone.
pub uninterp spec fn b64_of(bytes: Seq<u8>) -> Seq<u8>;

/// Relies on base64's `encode` (standard alphabet, padded): the result
/// depends on the input bytes alone, and holds four output bytes for every
/// three input bytes, rounded up.
#[verifier::external_body]
fn base64_encode(bytes: &Vec<u8>) -> (r: Vec<u8>)
    requires
        bytes@.len() / 3 * 4 + 4 <= usize::MAX,
    ensures
        r@ == b64_of(bytes@),
        r@.len() == bytes@.len() / 3 * 4 + (if bytes@.len() % 3 == 0 {
            0int
        } else {
            4int
        }),
{
    base64::encode(bytes).into_bytes()
}

/// The relay request body around an encoded transaction.
pub open spec fn spec_relay_body(tx_base64: Seq<u8>) -> Seq<u8> {
    "{\"jsonrpc\":\"3.0\",\"id\":1,\"method\":\"POST\",\"transactions\":[\"".spec_bytes()
        + tx_base64 + "\"]}".spec_bytes()
}

/// Frames a serialized transaction for the relay: the transaction bytes are
/// base64-encoded and wrapped in the relay's fixed request body.
pub fn relay_request_body(tx_bytes: &Vec<u8>) -> (r: Vec<u8>)
    requires
        tx_bytes@.len() / 3 * 4 + 4 <= usize::MAX - 64,
    ensures
        r@ == spec_relay_body(b64_of(tx_bytes@)),
{
    let encoded = base64_encode(tx_bytes);
    let mut body: Vec<u8> = Vec::new();
    body.extend_from_slice(
        "{\"jsonrpc\":\"3.0\",\"id\":1,\"method\":\"POST\",\"transactions\":[\"".as_bytes(),
    );
    body.extend_from_slice(encoded.as_slice());
    body.extend_from_slice("\"]}".as_bytes());
    proof {
        assert(body@ =~= spec_relay_body(b64_of(tx_bytes@)));
    }
    body
}

/// The relay's fixed tip destination, as its base58 account text.
pub fn relay_tip_account() -> (r: &'static str)
    ensures
        r@ == "FLaShB3iXXTWE1vu9wQsChUKq3HFtpMAhb8kAh1pf1wi"@,
{
    "FLaShB3iXXTWE1vu9wQsChUKq3HFtpMAhb8kAh1pf1wi"
}

} // verus!
