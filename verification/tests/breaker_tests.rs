use circuit_breaker::{CircuitBreaker, CircuitBreakerError, CircuitState};
use std::sync::atomic::{AtomicUsize, Ordering};
use std::sync::Arc;
use std::time::Duration;

const MS: u128 = 1_000_000;

fn counter() -> (Arc<AtomicUsize>, impl Fn() + Send + Sync + 'static) {
    let count = Arc::new(AtomicUsize::new(0));
    let seen = count.clone();
    (count, move || {
        seen.fetch_add(1, Ordering::SeqCst);
    })
}

fn read(count: &Arc<AtomicUsize>) -> usize {
    count.load(Ordering::SeqCst)
}

#[test]
fn new_breaker_is_closed_and_empty() {
    let cb = CircuitBreaker::with_timeout_nanos(3, 100 * MS);
    assert_eq!(cb.current_state(), CircuitState::Closed);
    assert_eq!(cb.failure_count(), 0);
    assert_eq!(cb.failure_threshold(), 3);
    assert_eq!(cb.reset_timeout_nanos(), 100 * MS);
}

#[test]
fn new_takes_the_timeout_in_nanoseconds() {
    let cb = CircuitBreaker::new(3, Duration::from_millis(100));
    assert_eq!(cb.reset_timeout_nanos(), 100_000_000);
    let cb = CircuitBreaker::new(1, Duration::new(2, 5));
    assert_eq!(cb.reset_timeout_nanos(), 2_000_000_005);
    assert_eq!(cb.failure_threshold(), 1);
}

#[test]
fn opens_after_exactly_threshold_recorded_failures() {
    for threshold in [1u32, 2, 3, 7] {
        let mut cb = CircuitBreaker::with_timeout_nanos(threshold, 100 * MS);
        for done in 1..=threshold {
            assert_eq!(cb.current_state(), CircuitState::Closed);
            cb.handle_failure_at(done as u128);
            assert_eq!(cb.failure_count(), done);
        }
        assert_eq!(cb.current_state(), CircuitState::Open);
    }
}

#[test]
fn opens_after_exactly_threshold_failed_calls() {
    for threshold in [1u32, 2, 5] {
        let mut cb = CircuitBreaker::with_timeout_nanos(threshold, 100 * MS);
        let (calls, bump) = counter();
        for done in 1..=threshold {
            assert_eq!(cb.current_state(), CircuitState::Closed);
            let result = cb.execute_at(done as u128, || {
                bump();
                Err::<u8, &str>("down")
            });
            assert!(matches!(result, Err(CircuitBreakerError::OperationFailed("down"))));
        }
        assert_eq!(read(&calls), threshold as usize);
        assert_eq!(cb.current_state(), CircuitState::Open);
    }
}

#[test]
fn open_circuit_rejects_without_running_the_operation() {
    let mut cb = CircuitBreaker::with_timeout_nanos(2, 100 * MS);
    cb.handle_failure_at(10 * MS);
    cb.handle_failure_at(20 * MS);
    let (calls, bump) = counter();
    for now in [20 * MS, 21 * MS, 70 * MS, 120 * MS - 1] {
        let result = cb.execute_at(now, || {
            bump();
            Ok::<u8, u8>(1)
        });
        assert!(matches!(result, Err(CircuitBreakerError::CircuitOpen)));
        assert_eq!(cb.current_state(), CircuitState::Open);
        assert_eq!(cb.failure_count(), 2);
    }
    assert_eq!(read(&calls), 0);
}

#[test]
fn cooldown_ends_exactly_at_the_timeout() {
    let mut cb = CircuitBreaker::with_timeout_nanos(1, 100 * MS);
    cb.handle_failure_at(40 * MS);
    assert_eq!(cb.state_at(140 * MS - 1), CircuitState::Open);
    assert_eq!(cb.state_at(140 * MS), CircuitState::HalfOpen);
}

#[test]
fn half_open_is_notified_once_per_transition() {
    let mut cb = CircuitBreaker::with_timeout_nanos(1, 100 * MS);
    let (half_open, bump) = counter();
    cb.set_on_half_open(bump);
    cb.handle_failure_at(0);
    assert_eq!(cb.state_at(50 * MS), CircuitState::Open);
    assert_eq!(read(&half_open), 0);
    assert_eq!(cb.state_at(150 * MS), CircuitState::HalfOpen);
    assert_eq!(read(&half_open), 1);
    assert_eq!(cb.state_at(151 * MS), CircuitState::HalfOpen);
    assert_eq!(cb.state_at(900 * MS), CircuitState::HalfOpen);
    assert_eq!(read(&half_open), 1);
}

#[test]
fn call_after_cooldown_probes_and_success_closes() {
    let mut cb = CircuitBreaker::with_timeout_nanos(2, 100 * MS);
    let (opened, on_open) = counter();
    let (closed, on_close) = counter();
    let (half_open, on_half_open) = counter();
    cb.set_on_open(on_open);
    cb.set_on_close(on_close);
    cb.set_on_half_open(on_half_open);
    cb.handle_failure_at(0);
    cb.handle_failure_at(0);
    assert_eq!(read(&opened), 1);
    let result = cb.execute_at(100 * MS, || Ok::<u32, u8>(42));
    assert!(matches!(result, Ok(42)));
    assert_eq!(cb.current_state(), CircuitState::Closed);
    assert_eq!(cb.failure_count(), 0);
    assert_eq!(read(&half_open), 1);
    assert_eq!(read(&closed), 1);
    assert_eq!(read(&opened), 1);
}

#[test]
fn probe_success_closes_and_notifies_once() {
    let mut cb = CircuitBreaker::with_timeout_nanos(3, 100 * MS);
    let (closed, on_close) = counter();
    cb.set_on_close(on_close);
    for _ in 0..3 {
        cb.handle_failure_at(0);
    }
    assert_eq!(cb.state_at(100 * MS), CircuitState::HalfOpen);
    assert_eq!(cb.failure_count(), 3);
    let result = cb.execute_at(101 * MS, || Ok::<&str, u8>("fine"));
    assert!(matches!(result, Ok("fine")));
    assert_eq!(cb.current_state(), CircuitState::Closed);
    assert_eq!(cb.failure_count(), 0);
    assert_eq!(read(&closed), 1);
    let _ = cb.execute_at(102 * MS, || Ok::<&str, u8>("fine"));
    assert_eq!(read(&closed), 1);
}

#[test]
fn probe_failure_reopens_and_notifies() {
    let mut cb = CircuitBreaker::with_timeout_nanos(3, 100 * MS);
    let (opened, on_open) = counter();
    cb.set_on_open(on_open);
    for _ in 0..3 {
        cb.handle_failure_at(0);
    }
    assert_eq!(read(&opened), 1);
    assert_eq!(cb.state_at(100 * MS), CircuitState::HalfOpen);
    let result = cb.execute_at(101 * MS, || Err::<u8, u8>(9));
    assert!(matches!(result, Err(CircuitBreakerError::OperationFailed(9))));
    assert_eq!(cb.current_state(), CircuitState::Open);
    assert_eq!(read(&opened), 2);
    // The cooldown starts again from the failed probe.
    assert_eq!(cb.state_at(200 * MS), CircuitState::Open);
    assert_eq!(cb.state_at(201 * MS), CircuitState::HalfOpen);
}

#[test]
fn one_failure_reopens_a_probing_circuit_whatever_the_count() {
    let mut cb = CircuitBreaker::with_timeout_nanos(3, 100 * MS);
    for _ in 0..3 {
        cb.handle_failure_at(0);
    }
    // A success reported while open clears the counter and leaves the
    // circuit open.
    cb.handle_success();
    assert_eq!(cb.current_state(), CircuitState::Open);
    assert_eq!(cb.failure_count(), 0);
    assert_eq!(cb.state_at(100 * MS), CircuitState::HalfOpen);
    cb.handle_failure_at(100 * MS);
    assert_eq!(cb.failure_count(), 1);
    assert_eq!(cb.current_state(), CircuitState::Open);
}

#[test]
fn scenario_trip_reject_probe_close() {
    let mut cb = CircuitBreaker::with_timeout_nanos(3, 100 * MS);
    cb.handle_failure_at(0);
    cb.handle_failure_at(0);
    cb.handle_failure_at(0);
    assert_eq!(cb.state_at(0), CircuitState::Open);
    let (calls, bump) = counter();
    let result = cb.execute_at(0, || {
        bump();
        Ok::<u8, u8>(1)
    });
    assert!(matches!(result, Err(CircuitBreakerError::CircuitOpen)));
    assert_eq!(read(&calls), 0);
    assert_eq!(cb.state_at(150 * MS), CircuitState::HalfOpen);
    let result = cb.execute_at(150 * MS, || Ok::<u8, u8>(7));
    assert!(matches!(result, Ok(7)));
    assert_eq!(cb.state_at(150 * MS), CircuitState::Closed);
}

#[test]
fn scenario_success_clears_the_count() {
    let mut cb = CircuitBreaker::with_timeout_nanos(2, 100 * MS);
    cb.handle_failure_at(1);
    assert_eq!(cb.current_state(), CircuitState::Closed);
    assert_eq!(cb.failure_count(), 1);
    cb.handle_success();
    assert_eq!(cb.current_state(), CircuitState::Closed);
    assert_eq!(cb.failure_count(), 0);
    cb.handle_failure_at(2);
    assert_eq!(cb.current_state(), CircuitState::Closed);
    assert_eq!(cb.failure_count(), 1);
}

#[test]
fn successful_call_clears_the_count_of_a_closed_circuit() {
    let mut cb = CircuitBreaker::with_timeout_nanos(2, 100 * MS);
    let _ = cb.execute_at(1, || Err::<u8, u8>(0));
    assert_eq!(cb.failure_count(), 1);
    let result = cb.execute_at(2, || Ok::<u8, u8>(5));
    assert!(matches!(result, Ok(5)));
    assert_eq!(cb.failure_count(), 0);
    let _ = cb.execute_at(3, || Err::<u8, u8>(0));
    assert_eq!(cb.current_state(), CircuitState::Closed);
    assert_eq!(cb.failure_count(), 1);
}

#[test]
fn a_call_can_notify_half_open_and_open() {
    let mut cb = CircuitBreaker::with_timeout_nanos(1, 100 * MS);
    let (opened, on_open) = counter();
    let (half_open, on_half_open) = counter();
    cb.set_on_open(on_open);
    cb.set_on_half_open(on_half_open);
    cb.handle_failure_at(0);
    assert_eq!((read(&opened), read(&half_open)), (1, 0));
    let result = cb.execute_at(100 * MS, || Err::<u8, u8>(3));
    assert!(matches!(result, Err(CircuitBreakerError::OperationFailed(3))));
    assert_eq!((read(&opened), read(&half_open)), (2, 1));
    assert_eq!(cb.current_state(), CircuitState::Open);
}

#[test]
fn failure_while_open_counts_and_notifies_again() {
    let mut cb = CircuitBreaker::with_timeout_nanos(2, 100 * MS);
    let (opened, on_open) = counter();
    cb.set_on_open(on_open);
    cb.handle_failure_at(0);
    assert_eq!(read(&opened), 0);
    cb.handle_failure_at(10 * MS);
    assert_eq!(read(&opened), 1);
    cb.handle_failure_at(60 * MS);
    assert_eq!(cb.current_state(), CircuitState::Open);
    assert_eq!(cb.failure_count(), 3);
    assert_eq!(read(&opened), 2);
    // The cooldown runs from the latest failure.
    assert_eq!(cb.state_at(110 * MS), CircuitState::Open);
    assert_eq!(cb.state_at(160 * MS), CircuitState::HalfOpen);
}

#[test]
fn a_clock_that_runs_backwards_counts_as_no_time_passed() {
    let mut cb = CircuitBreaker::with_timeout_nanos(1, 100 * MS);
    cb.handle_failure_at(500 * MS);
    assert_eq!(cb.state_at(0), CircuitState::Open);
    assert_eq!(cb.state_at(499 * MS), CircuitState::Open);
    assert_eq!(cb.state_at(600 * MS), CircuitState::HalfOpen);
}

#[test]
fn zero_timeout_probes_at_once() {
    let mut cb = CircuitBreaker::with_timeout_nanos(1, 0);
    cb.handle_failure_at(5);
    assert_eq!(cb.current_state(), CircuitState::Open);
    let (calls, bump) = counter();
    let result = cb.execute_at(5, || {
        bump();
        Ok::<u8, u8>(1)
    });
    assert!(matches!(result, Ok(1)));
    assert_eq!(read(&calls), 1);
    assert_eq!(cb.current_state(), CircuitState::Closed);
}

#[test]
fn zero_threshold_opens_on_the_first_failure() {
    let mut cb = CircuitBreaker::with_timeout_nanos(0, 100 * MS);
    assert_eq!(cb.current_state(), CircuitState::Closed);
    let result = cb.execute_at(0, || Ok::<u8, u8>(1));
    assert!(matches!(result, Ok(1)));
    assert_eq!(cb.current_state(), CircuitState::Closed);
    cb.handle_failure_at(1);
    assert_eq!(cb.current_state(), CircuitState::Open);
}

#[test]
fn a_new_callback_replaces_the_old_one() {
    let mut cb = CircuitBreaker::with_timeout_nanos(1, 100 * MS);
    let (first, on_first) = counter();
    let (second, on_second) = counter();
    cb.set_on_open(on_first);
    cb.handle_failure_at(0);
    assert_eq!((read(&first), read(&second)), (1, 0));
    cb.set_on_open(on_second);
    cb.handle_failure_at(1);
    assert_eq!((read(&first), read(&second)), (1, 1));
}

#[test]
fn transitions_without_callbacks_are_silent() {
    let mut cb = CircuitBreaker::with_timeout_nanos(1, 10);
    cb.handle_failure_at(0);
    assert_eq!(cb.state_at(10), CircuitState::HalfOpen);
    cb.handle_success();
    assert_eq!(cb.current_state(), CircuitState::Closed);
}

#[test]
fn operation_runs_exactly_once_when_let_through() {
    let mut cb = CircuitBreaker::with_timeout_nanos(5, 100 * MS);
    let (calls, bump) = counter();
    let result = cb.execute_at(0, || {
        bump();
        Ok::<String, u8>("value".to_string())
    });
    assert_eq!(result.unwrap(), "value");
    assert_eq!(read(&calls), 1);
}

#[test]
fn system_clock_call_passes_through_a_closed_circuit() {
    let mut cb = CircuitBreaker::new(2, Duration::from_secs(60));
    let result = cb.execute(|| Ok::<u8, u8>(3));
    assert!(matches!(result, Ok(3)));
    let result = cb.execute(|| Err::<u8, u8>(4));
    assert!(matches!(result, Err(CircuitBreakerError::OperationFailed(4))));
    assert_eq!(cb.failure_count(), 1);
    cb.handle_failure();
    assert_eq!(cb.state(), CircuitState::Open);
    let (calls, bump) = counter();
    let result = cb.execute(|| {
        bump();
        Ok::<u8, u8>(3)
    });
    assert!(matches!(result, Err(CircuitBreakerError::CircuitOpen)));
    assert_eq!(read(&calls), 0);
    assert_eq!(cb.state(), CircuitState::Open);
}

#[test]
fn states_are_shown_by_name() {
    assert_eq!(CircuitState::Closed.to_string(), "Closed");
    assert_eq!(CircuitState::Open.to_string(), "Open");
    assert_eq!(CircuitState::HalfOpen.to_string(), "HalfOpen");
}

#[test]
fn errors_tell_rejection_from_failure() {
    let rejected: CircuitBreakerError<u8> = CircuitBreakerError::CircuitOpen;
    assert!(rejected.is_circuit_open());
    assert_eq!(rejected.to_string(), "Circuit is open");
    assert_eq!(rejected.into_cause(), None);
    let failed = CircuitBreakerError::OperationFailed(17u8);
    assert!(!failed.is_circuit_open());
    assert_eq!(failed.to_string(), "Operation failed");
    assert_eq!(failed.into_cause(), Some(17));
}

#[test]
fn add_sums_its_arguments() {
    assert_eq!(circuit_breaker::add(0, 0), 0);
    assert_eq!(circuit_breaker::add(40, 2), 42);
    assert_eq!(circuit_breaker::add(usize::MAX - 1, 1), usize::MAX);
}

#[test]
fn registering_a_callback_invokes_nothing() {
    let mut cb = CircuitBreaker::with_timeout_nanos(1, 100 * MS);
    let (first, on_first) = counter();
    let (second, on_second) = counter();
    let (closed, on_close) = counter();
    cb.set_on_open(on_first);
    cb.set_on_open(on_second);
    cb.set_on_close(on_close);
    assert_eq!((read(&first), read(&second), read(&closed)), (0, 0, 0));
    assert_eq!(cb.current_state(), CircuitState::Closed);
    assert_eq!(cb.failure_count(), 0);
    cb.handle_failure_at(0);
    assert_eq!((read(&first), read(&second), read(&closed)), (0, 1, 0));
}
