use organic_trader::tx::{
    classify_relay_response, fast_send_config, force_sell_attempts, force_sell_send_config,
    probe_send_config, relay_attempts, relay_request_body, relay_tip_account,
    single_attempt_outcome, CommitmentLevel, DeliveryError, RetrySchedule, FORCE_SELL_BACKOFF_MS,
    FORCE_SELL_MAX_ATTEMPTS, RELAY_MAX_RETRIES, RELAY_RETRY_DELAY_MS, RELAY_TIP_LAMPORTS,
};

#[test]
fn retry_schedule_drives_the_policies() {
    let mut s = RetrySchedule::force_sell();
    assert!(s.should_attempt());
    assert_eq!(s.wait_before_next_ms(), 0);
    s.record_attempt();
    assert_eq!(s.wait_before_next_ms(), 200);
    s.record_attempt();
    s.record_attempt();
    assert!(!s.should_attempt());

    let mut r = RetrySchedule::relay();
    assert_eq!(r.wait_before_next_ms(), 0);
    r.record_attempt();
    assert_eq!(r.wait_before_next_ms(), 500);
    r.record_attempt();
    assert!(r.should_attempt());
    r.record_attempt();
    assert!(!r.should_attempt());
}

#[test]
fn strategy_configurations_exact() {
    let fast = fast_send_config();
    assert!(fast.skip_preflight);
    assert_eq!(fast.preflight_commitment, CommitmentLevel::Processed);
    assert_eq!(fast.max_retries, 3);

    let urgent = force_sell_send_config();
    assert!(!urgent.skip_preflight);
    assert_eq!(urgent.preflight_commitment, CommitmentLevel::Processed);
    assert_eq!(urgent.max_retries, 5);

    let probe = probe_send_config();
    assert!(probe.skip_preflight);
    assert_eq!(probe.preflight_commitment, CommitmentLevel::Finalized);
    assert_eq!(probe.max_retries, 0);
}

#[test]
fn delivery_constants_exact() {
    assert_eq!(FORCE_SELL_MAX_ATTEMPTS, 3);
    assert_eq!(FORCE_SELL_BACKOFF_MS, 200);
    assert_eq!(RELAY_MAX_RETRIES, 3);
    assert_eq!(RELAY_RETRY_DELAY_MS, 500);
    assert_eq!(RELAY_TIP_LAMPORTS, 100_000);
}

#[test]
fn single_attempt_maps_outcomes() {
    let ok = single_attempt_outcome(Ok("sig1".to_string()));
    assert_eq!(ok, Ok(vec!["sig1".to_string()]));
    let err = single_attempt_outcome(Err("boom".to_string()));
    assert_eq!(err, Err(DeliveryError::Network("boom".to_string())));
}

#[test]
fn urgent_sell_succeeds_on_third_attempt() {
    // A network that fails twice then accepts: success, exactly three
    // attempts, two backoff waits.
    let outcomes = vec![
        Err("first".to_string()),
        Err("second".to_string()),
        Ok("sig".to_string()),
    ];
    let report = force_sell_attempts(outcomes);
    assert_eq!(report.result, Ok(vec!["sig".to_string()]));
    assert_eq!(report.attempts_used, 3);
    assert_eq!(report.backoff_waits, 2);
}

#[test]
fn urgent_sell_gives_up_after_three_attempts() {
    let outcomes = vec![
        Err("first".to_string()),
        Err("second".to_string()),
        Err("third".to_string()),
    ];
    let report = force_sell_attempts(outcomes);
    assert_eq!(
        report.result,
        Err(DeliveryError::Network("third".to_string()))
    );
    assert_eq!(report.attempts_used, 3);
    assert_eq!(report.backoff_waits, 2);
}

#[test]
fn urgent_sell_stops_on_first_success() {
    let outcomes = vec![
        Ok("sig".to_string()),
        Err("unused".to_string()),
        Err("unused".to_string()),
    ];
    let report = force_sell_attempts(outcomes);
    assert_eq!(report.result, Ok(vec!["sig".to_string()]));
    assert_eq!(report.attempts_used, 1);
    assert_eq!(report.backoff_waits, 0);
}

#[test]
fn relay_response_classification() {
    let sigs = vec!["a".to_string(), "b".to_string()];
    assert_eq!(
        classify_relay_response(true, sigs.clone(), String::new()),
        Ok(sigs)
    );
    assert_eq!(
        classify_relay_response(true, Vec::new(), String::new()),
        Err(DeliveryError::EmptySignatures)
    );
    assert_eq!(
        classify_relay_response(false, vec!["x".to_string()], "rejected".to_string()),
        Err(DeliveryError::RelayRejected("rejected".to_string()))
    );
}

#[test]
fn relay_retries_until_delivery() {
    let attempts = vec![
        Err(DeliveryError::RelayRejected("busy".to_string())),
        Err(DeliveryError::EmptySignatures),
        Ok(vec!["sig".to_string()]),
    ];
    let report = relay_attempts(attempts);
    assert_eq!(report.result, Ok(vec!["sig".to_string()]));
    assert_eq!(report.attempts_used, 3);
    assert_eq!(report.backoff_waits, 2);
}

#[test]
fn relay_reports_last_error_on_exhaustion() {
    let attempts = vec![
        Err(DeliveryError::RelayRejected("one".to_string())),
        Err(DeliveryError::RelayRejected("two".to_string())),
        Err(DeliveryError::EmptySignatures),
    ];
    let report = relay_attempts(attempts);
    assert_eq!(report.result, Err(DeliveryError::EmptySignatures));
    assert_eq!(report.attempts_used, 3);
    assert_eq!(report.backoff_waits, 2);
}

#[test]
fn relay_request_body_encodes_and_frames() {
    // "abc" encodes to "YWJj": the body holds the encoding, not the input.
    let body = relay_request_body(&b"abc".to_vec());
    let expected =
        "{\"jsonrpc\":\"3.0\",\"id\":1,\"method\":\"POST\",\"transactions\":[\"YWJj\"]}";
    assert_eq!(body, expected.as_bytes().to_vec());
}

#[test]
fn relay_request_body_pads_partial_chunks() {
    // A single byte encodes to four base64 characters with padding.
    let body = relay_request_body(&vec![0u8]);
    let expected =
        "{\"jsonrpc\":\"3.0\",\"id\":1,\"method\":\"POST\",\"transactions\":[\"AA==\"]}";
    assert_eq!(body, expected.as_bytes().to_vec());
}

#[test]
fn relay_tip_account_exact() {
    assert_eq!(
        relay_tip_account(),
        "FLaShB3iXXTWE1vu9wQsChUKq3HFtpMAhb8kAh1pf1wi"
    );
}
