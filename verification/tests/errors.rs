use monkey_troop::shared::errors::{
    TroopError, AUTH_TIMEOUT, CIRCUIT_BREAKER_THRESHOLD, CIRCUIT_BREAKER_TIMEOUT,
    DISCOVERY_TIMEOUT, INFERENCE_TIMEOUT, MAX_RETRIES, RETRY_DELAYS,
};

#[test]
fn limits_have_their_values() {
    assert_eq!(DISCOVERY_TIMEOUT, 5);
    assert_eq!(AUTH_TIMEOUT, 30);
    assert_eq!(INFERENCE_TIMEOUT, 300);
    assert_eq!(MAX_RETRIES, 3);
    assert_eq!(RETRY_DELAYS, [1, 2, 4]);
    assert_eq!(CIRCUIT_BREAKER_THRESHOLD, 5);
    assert_eq!(CIRCUIT_BREAKER_TIMEOUT, 60);
}

#[test]
fn each_error_has_its_message() {
    assert_eq!(TroopError::NetworkError("refused".to_string()).message(), "Network error: refused");
    assert_eq!(TroopError::Timeout("30s".to_string()).message(), "Timeout: 30s");
    assert_eq!(
        TroopError::AuthError("bad ticket".to_string()).message(),
        "Authentication error: bad ticket"
    );
    assert_eq!(TroopError::NoNodesAvailable.message(), "No nodes available to service request");
    assert_eq!(
        TroopError::InsufficientCredits { required: 120, available: 7 }.message(),
        "Insufficient credits: need 120, have 7"
    );
    assert_eq!(
        TroopError::InsufficientCredits { required: u64::MAX, available: 0 }.message(),
        "Insufficient credits: need 18446744073709551615, have 0"
    );
    assert_eq!(TroopError::InvalidRequest("no json".to_string()).message(), "Invalid request: no json");
    assert_eq!(
        TroopError::WorkerUnavailable("503".to_string()).message(),
        "Worker unavailable: 503"
    );
    assert_eq!(
        TroopError::CircuitBreakerOpen.message(),
        "Circuit breaker open, service temporarily unavailable"
    );
    assert_eq!(TroopError::InternalError("oops".to_string()).message(), "Internal error: oops");
}

#[test]
fn only_passing_failures_are_retriable() {
    assert!(TroopError::NetworkError(String::new()).is_retriable());
    assert!(TroopError::Timeout(String::new()).is_retriable());
    assert!(TroopError::WorkerUnavailable(String::new()).is_retriable());
    assert!(!TroopError::AuthError(String::new()).is_retriable());
    assert!(!TroopError::NoNodesAvailable.is_retriable());
    assert!(!TroopError::InsufficientCredits { required: 1, available: 0 }.is_retriable());
    assert!(!TroopError::InvalidRequest(String::new()).is_retriable());
    assert!(!TroopError::CircuitBreakerOpen.is_retriable());
    assert!(!TroopError::InternalError(String::new()).is_retriable());
}

#[test]
fn transport_failures_are_told_apart() {
    assert!(matches!(
        TroopError::from_transport(true, false, "t".to_string()),
        TroopError::Timeout(m) if m == "t"
    ));
    assert!(matches!(
        TroopError::from_transport(true, true, "t".to_string()),
        TroopError::Timeout(m) if m == "t"
    ));
    assert!(matches!(
        TroopError::from_transport(false, true, "c".to_string()),
        TroopError::NetworkError(m) if m == "c"
    ));
    assert!(matches!(
        TroopError::from_transport(false, false, "x".to_string()),
        TroopError::InternalError(m) if m == "x"
    ));
}

#[test]
fn unreadable_json_is_an_invalid_request() {
    let err = serde_json::from_str::<serde_json::Value>("{not json").unwrap_err();
    let shown = err.to_string();
    let e = TroopError::from(err);
    assert!(matches!(&e, TroopError::InvalidRequest(m) if *m == shown));
    assert_eq!(e.message(), format!("Invalid request: {}", shown));
}

#[test]
fn a_request_that_cannot_be_built_is_an_internal_error() {
    let err = reqwest::blocking::Client::new().get("not a url").send().unwrap_err();
    assert!(!err.is_timeout());
    assert!(!err.is_connect());
    let shown = err.to_string();
    let e = TroopError::from(err);
    assert!(matches!(&e, TroopError::InternalError(m) if *m == shown));
    assert!(!e.is_retriable());
}

#[test]
fn a_refused_connection_is_a_network_error() {
    let err = reqwest::blocking::Client::new()
        .get("http://127.0.0.1:1/")
        .timeout(std::time::Duration::from_secs(5))
        .send()
        .unwrap_err();
    let (timed_out, connect_failed, shown) = (err.is_timeout(), err.is_connect(), err.to_string());
    let e = TroopError::from(err);
    if timed_out {
        assert!(matches!(&e, TroopError::Timeout(m) if *m == shown));
    } else {
        assert!(connect_failed);
        assert!(matches!(&e, TroopError::NetworkError(m) if *m == shown));
    }
    assert!(e.is_retriable());
}
