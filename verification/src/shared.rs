//! A circuit breaker that many callers use at once.
//!
//! [`SharedCircuitBreaker`] keeps a [`CircuitBreaker`] behind a lock. Every
//! method takes `&self`, takes the lock for one step of the breaker and
//! gives it back before returning; the guarded operation itself runs with
//! the lock released. Steps of different callers are thereby put in one
//! order, and each is a step of the breaker's model.
//!
//! What another caller does between two steps cannot be known, so the
//! contracts here state only what holds however the callers interleave.
//! What a single step does is stated exactly on [`CircuitBreaker`].
//!
//! Callbacks run while the lock is held. A callback must be short and must
//! not call into the breaker it is registered with.

use vstd::prelude::*;
use vstd::rwlock::{RwLock, RwLockPredicate};
use std::time::Duration;
use crate::circuit_breaker::CircuitBreaker;
use crate::circuit_state::CircuitState;
use crate::clock::duration_nanos;
use crate::error::CircuitBreakerError;
use crate::model::BreakerModel;

verus! {

/// What stays fixed about the breaker inside a [`SharedCircuitBreaker`].
pub struct Setup {
    /// Number of consecutive failures that opens the circuit.
    pub failure_threshold: nat,
    /// Least time, in nanoseconds, the circuit stays open before a probe.
    pub reset_timeout: nat,
}

impl RwLockPredicate<CircuitBreaker> for Setup {
    /// The breaker under the lock is well formed and configured as `self`
    /// says.
    open spec fn inv(self, breaker: CircuitBreaker) -> bool {
        &&& breaker@.wf()
        &&& breaker@.failure_threshold == self.failure_threshold
        &&& breaker@.reset_timeout == self.reset_timeout
    }
}

/// A circuit breaker behind a lock, for use by many callers at once.
pub struct SharedCircuitBreaker {
    guarded: RwLock<CircuitBreaker, Setup>,
}

impl SharedCircuitBreaker {
    /// The threshold and timeout this breaker was built with. They hold of
    /// the breaker under the lock whenever the lock is free.
    pub closed spec fn setup(&self) -> Setup {
        self.guarded.pred()
    }

    /// Builds a closed breaker that opens after `failure_threshold`
    /// consecutive failures and stays open for at least `reset_timeout`.
    pub fn new(failure_threshold: u32, reset_timeout: Duration) -> (shared: Self)
        ensures
            shared.setup().failure_threshold == failure_threshold,
            shared.setup().reset_timeout == duration_nanos(reset_timeout),
    {
        let breaker = CircuitBreaker::new(failure_threshold, reset_timeout);
        let ghost setup = Setup {
            failure_threshold: failure_threshold as nat,
            reset_timeout: duration_nanos(reset_timeout),
        };
        SharedCircuitBreaker { guarded: RwLock::new(breaker, Ghost(setup)) }
    }

    /// Looks at the breaker now and returns its state, as
    /// [`CircuitBreaker::state`] does. By the time the caller reads the
    /// answer another caller may have moved the breaker on, so the answer
    /// is tied to the breaker as it was `seen` under the lock.
    pub fn state(&self) -> (state: CircuitState)
        ensures
            exists|seen: BreakerModel, now: nat|
                {
                    &&& seen.wf()
                    &&& seen.failure_threshold == self.setup().failure_threshold
                    &&& seen.reset_timeout == self.setup().reset_timeout
                    &&& state == (#[trigger] seen.poll(now)).state
                },
    {
        let (mut breaker, handle) = self.guarded.acquire_write();
        let ghost seen = breaker@;
        let state = breaker.state();
        proof {
            let now = breaker@.latest();
            assert(state == seen.read(now).poll(now).state);
        }
        handle.release_write(breaker);
        state
    }

    /// Records a failure observed now, as [`CircuitBreaker::handle_failure`]
    /// does.
    pub fn handle_failure(&self) {
        let (mut breaker, handle) = self.guarded.acquire_write();
        breaker.handle_failure();
        handle.release_write(breaker);
    }

    /// Records a success, as [`CircuitBreaker::handle_success`] does.
    pub fn handle_success(&self) {
        let (mut breaker, handle) = self.guarded.acquire_write();
        breaker.handle_success();
        handle.release_write(breaker);
    }

    /// Runs `operation` under the guard of the breaker.
    ///
    /// The breaker is looked at under the lock. If the circuit is then
    /// open, the call is rejected with `CircuitOpen` and `operation` is not
    /// run: a call is rejected only by a breaker that was seen open with
    /// its cooldown still running, and so never by one whose timeout is
    /// zero. Otherwise the lock is released, `operation` runs exactly once,
    /// and its outcome is recorded under the lock again: the value of a
    /// success is returned as it is, the cause of a failure in
    /// `OperationFailed`.
    ///
    /// Two callers may both be let through by a probing circuit. Each
    /// outcome is then recorded in the order in which the callers get the
    /// lock back: a failure opens the circuit, and a success that comes
    /// after it clears the counter but leaves the circuit open.
    pub fn execute<F, T, E>(&self, operation: F) -> (result: Result<
        T,
        CircuitBreakerError<E>,
    >) where F: FnOnce() -> Result<T, E>
        requires
            operation.requires(()),
        ensures
            match result {
                Ok(value) => operation.ensures((), Ok(value)),
                Err(CircuitBreakerError::OperationFailed(cause)) => operation.ensures(
                    (),
                    Err(cause),
                ),
                Err(CircuitBreakerError::CircuitOpen) => exists|seen: BreakerModel, now: nat|
                    {
                        &&& seen.wf()
                        &&& seen.failure_threshold == self.setup().failure_threshold
                        &&& seen.reset_timeout == self.setup().reset_timeout
                        &&& #[trigger] seen.rejects(now)
                    },
            },
            self.setup().reset_timeout == 0 ==> !(result matches Err(
                CircuitBreakerError::CircuitOpen,
            )),
    {
        if self.state() == CircuitState::Open {
            proof {
                let (seen, now) = choose|seen: BreakerModel, now: nat|
                    {
                        &&& seen.wf()
                        &&& seen.failure_threshold == self.setup().failure_threshold
                        &&& seen.reset_timeout == self.setup().reset_timeout
                        &&& CircuitState::Open == (#[trigger] seen.poll(now)).state
                    };
                assert(seen.rejects(now));
            }
            return Err(CircuitBreakerError::CircuitOpen);
        }
        match operation() {
            Ok(value) => {
                self.handle_success();
                Ok(value)
            },
            Err(cause) => {
                self.handle_failure();
                Err(CircuitBreakerError::OperationFailed(cause))
            },
        }
    }

    /// Registers the callback to invoke whenever the circuit is forced
    /// open, in place of any registered before.
    pub fn set_on_open<F>(&self, callback: F) where F: Fn() + Send + Sync + 'static
        requires
            callback.requires(()),
    {
        let (mut breaker, handle) = self.guarded.acquire_write();
        breaker.set_on_open(callback);
        handle.release_write(breaker);
    }

    /// Registers the callback to invoke whenever a probe closes the
    /// circuit, in place of any registered before.
    pub fn set_on_close<F>(&self, callback: F) where F: Fn() + Send + Sync + 'static
        requires
            callback.requires(()),
    {
        let (mut breaker, handle) = self.guarded.acquire_write();
        breaker.set_on_close(callback);
        handle.release_write(breaker);
    }

    /// Registers the callback to invoke whenever the circuit starts
    /// probing, in place of any registered before.
    pub fn set_on_half_open<F>(&self, callback: F) where F: Fn() + Send + Sync + 'static
        requires
            callback.requires(()),
    {
        let (mut breaker, handle) = self.guarded.acquire_write();
        breaker.set_on_half_open(callback);
        handle.release_write(breaker);
    }
}

} // verus!
