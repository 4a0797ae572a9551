use circuit_breaker::shared::SharedCircuitBreaker;
use circuit_breaker::{CircuitBreakerError, CircuitState};
use std::sync::atomic::{AtomicUsize, Ordering};
use std::sync::Arc;
use std::time::{Duration, Instant};

fn pause(length: Duration) {
    let start = Instant::now();
    while start.elapsed() < length {
        std::hint::spin_loop();
    }
}

fn may_cross_threads<T: Send + Sync>(_: &T) {}

#[test]
fn shared_breaker_may_cross_threads() {
    let shared = Arc::new(SharedCircuitBreaker::new(2, Duration::from_millis(100)));
    may_cross_threads(&shared);
}

#[test]
fn shared_breaker_trips_and_recovers() {
    let shared = Arc::new(SharedCircuitBreaker::new(2, Duration::from_millis(100)));
    let other = shared.clone();
    assert_eq!(shared.state(), CircuitState::Closed);
    let result = other.execute(|| Err::<u8, u8>(1));
    assert!(matches!(result, Err(CircuitBreakerError::OperationFailed(1))));
    assert_eq!(shared.state(), CircuitState::Closed);
    other.handle_failure();
    assert_eq!(shared.state(), CircuitState::Open);

    let calls = AtomicUsize::new(0);
    let result = shared.execute(|| {
        calls.fetch_add(1, Ordering::SeqCst);
        Ok::<u8, u8>(1)
    });
    assert!(matches!(result, Err(CircuitBreakerError::CircuitOpen)));
    assert_eq!(calls.load(Ordering::SeqCst), 0);

    pause(Duration::from_millis(150));
    assert_eq!(other.state(), CircuitState::HalfOpen);
    let result = shared.execute(|| Ok::<u8, u8>(9));
    assert!(matches!(result, Ok(9)));
    assert_eq!(other.state(), CircuitState::Closed);
}

#[test]
fn shared_breaker_fires_callbacks() {
    let shared = SharedCircuitBreaker::new(1, Duration::from_millis(50));
    let opened = Arc::new(AtomicUsize::new(0));
    let closed = Arc::new(AtomicUsize::new(0));
    let half_open = Arc::new(AtomicUsize::new(0));
    let seen = opened.clone();
    shared.set_on_open(move || {
        seen.fetch_add(1, Ordering::SeqCst);
    });
    let seen = closed.clone();
    shared.set_on_close(move || {
        seen.fetch_add(1, Ordering::SeqCst);
    });
    let seen = half_open.clone();
    shared.set_on_half_open(move || {
        seen.fetch_add(1, Ordering::SeqCst);
    });

    shared.handle_failure();
    assert_eq!(opened.load(Ordering::SeqCst), 1);
    pause(Duration::from_millis(80));
    assert_eq!(shared.state(), CircuitState::HalfOpen);
    assert_eq!(shared.state(), CircuitState::HalfOpen);
    assert_eq!(half_open.load(Ordering::SeqCst), 1);
    shared.handle_success();
    assert_eq!(shared.state(), CircuitState::Closed);
    assert_eq!(closed.load(Ordering::SeqCst), 1);
    assert_eq!(opened.load(Ordering::SeqCst), 1);
}
