use monkey_troop::shared::errors::{TroopError, TroopResult, MAX_RETRIES};
use monkey_troop::shared::retry::{retry_step, RetryStep};

/// Runs `operation` under the retry schedule, without waiting: returns what
/// the run returns, and the seconds it would have waited.
fn run<T>(mut operation: impl FnMut() -> TroopResult<T>) -> (TroopResult<T>, u64) {
    let mut waited = 0;
    let mut attempt = 0;
    loop {
        match retry_step(attempt, operation()) {
            RetryStep::Done(value) => return (Ok(value), waited),
            RetryStep::Fail(e) => return (Err(e), waited),
            RetryStep::Wait(secs) => {
                waited += secs;
                attempt += 1;
            }
        }
    }
}

#[test]
fn test_retry_succeeds_immediately() {
    let (result, waited) = run(|| Ok::<_, TroopError>(42));

    assert!(result.is_ok());
    assert_eq!(result.unwrap(), 42);
    assert_eq!(waited, 0);
}

#[test]
fn test_retry_succeeds_after_failures() {
    let mut counter = 0;

    let (result, waited) = run(|| {
        let count = counter;
        counter += 1;
        if count < 2 {
            Err(TroopError::NetworkError("Temporary failure".to_string()))
        } else {
            Ok(42)
        }
    });

    assert!(result.is_ok());
    assert_eq!(result.unwrap(), 42);
    assert_eq!(counter, 3);
    assert_eq!(waited, 3);
}

#[test]
fn test_retry_exhausts_attempts() {
    let mut counter = 0;

    let (result, waited) = run(|| {
        counter += 1;
        Err::<i32, _>(TroopError::NetworkError("Permanent failure".to_string()))
    });

    assert!(result.is_err());
    assert!(matches!(result, Err(TroopError::NetworkError(m)) if m == "Permanent failure"));
    assert_eq!(counter, MAX_RETRIES);
    assert_eq!(waited, 3);
}

#[test]
fn retry_returns_the_last_error() {
    let mut counter = 0;
    let (result, _) = run(|| {
        counter += 1;
        if counter < 3 {
            Err::<i32, _>(TroopError::Timeout(format!("attempt {}", counter)))
        } else {
            Err(TroopError::WorkerUnavailable("third".to_string()))
        }
    });
    assert!(matches!(result, Err(TroopError::WorkerUnavailable(m)) if m == "third"));
    assert_eq!(counter, 3);
}

#[test]
fn retry_does_not_repeat_what_cannot_pass() {
    let mut counter = 0;
    let (result, waited) = run(|| {
        counter += 1;
        Err::<i32, _>(TroopError::InvalidRequest("bad json".to_string()))
    });
    assert!(matches!(result, Err(TroopError::InvalidRequest(_))));
    assert_eq!(counter, 1);
    assert_eq!(waited, 0);
}

#[test]
fn retry_steps_follow_the_schedule() {
    let err = || Err::<u8, _>(TroopError::NetworkError("x".to_string()));
    assert!(matches!(retry_step(0, err()), RetryStep::Wait(1)));
    assert!(matches!(retry_step(1, err()), RetryStep::Wait(2)));
    assert!(matches!(retry_step(2, err()), RetryStep::Fail(TroopError::NetworkError(_))));
    assert!(matches!(retry_step(7, err()), RetryStep::Fail(TroopError::NetworkError(_))));
    assert!(matches!(retry_step(u32::MAX, err()), RetryStep::Fail(_)));
    assert!(matches!(retry_step(2, Ok::<u8, TroopError>(9)), RetryStep::Done(9)));
    assert!(matches!(
        retry_step(0, Err::<u8, _>(TroopError::AuthError("no".to_string()))),
        RetryStep::Fail(TroopError::AuthError(_))
    ));
}
