//! The executable circuit breaker.

use vstd::prelude::*;
use std::time::{Duration, Instant};
use crate::callback::{register, Callback};
use crate::circuit_state::CircuitState;
use crate::clock::duration_nanos;
use crate::error::CircuitBreakerError;
use crate::model::{BreakerModel, Transition};

verus! {

/// A guard around calls to an unreliable operation.
///
/// The breaker starts `Closed`. Once `failure_threshold` failures have been
/// recorded without a success in between, it turns `Open` and rejects
/// calls. When `reset_timeout` has passed since the last failure, the next
/// look at the breaker turns it `HalfOpen`, and the outcome of the next
/// call decides: success closes the circuit, failure opens it again.
///
/// Every method that can change the breaker takes `&mut self`, so each
/// transition is taken by exactly one caller and the contracts can say
/// exactly what it does. [`crate::shared::SharedCircuitBreaker`] puts a
/// breaker behind a lock for callers that run at the same time.
///
/// Methods whose name ends in `_at` take the time as an argument, in
/// nanoseconds on a clock of the caller's choosing. The others read the
/// system clock, in nanoseconds since the breaker was built, and do what
/// the `_at` method does at that reading. A breaker should be driven by one
/// clock only.
pub struct CircuitBreaker {
    failure_threshold: u32,
    reset_timeout: u128,
    state: CircuitState,
    failures: u32,
    last_failure_time: Option<u128>,
    built: Instant,
    on_open: Option<Box<dyn Callback>>,
    on_close: Option<Box<dyn Callback>>,
    on_half_open: Option<Box<dyn Callback>>,
    notified: Ghost<Seq<Transition>>,
    readings: Ghost<Seq<nat>>,
}

impl View for CircuitBreaker {
    type V = BreakerModel;

    closed spec fn view(&self) -> BreakerModel {
        BreakerModel {
            failure_threshold: self.failure_threshold as nat,
            reset_timeout: self.reset_timeout as nat,
            state: self.state,
            failures: self.failures as nat,
            last_failure_time: match self.last_failure_time {
                Some(then) => Some(then as nat),
                None => None,
            },
            on_open: match self.on_open {
                Some(callback) => Some(callback.promised()),
                None => None,
            },
            on_close: match self.on_close {
                Some(callback) => Some(callback.promised()),
                None => None,
            },
            on_half_open: match self.on_half_open {
                Some(callback) => Some(callback.promised()),
                None => None,
            },
            notified: self.notified@,
            readings: self.readings@,
        }
    }
}

impl CircuitBreaker {
    #[verifier::type_invariant]
    spec fn well_formed(&self) -> bool {
        self@.wf()
    }

    /// Builds a closed breaker that opens after `failure_threshold`
    /// consecutive failures and stays open for at least `reset_timeout`.
    pub fn new(failure_threshold: u32, reset_timeout: Duration) -> (breaker: Self)
        ensures
            breaker@ == BreakerModel::initial(
                failure_threshold as nat,
                duration_nanos(reset_timeout),
            ),
            breaker@.wf(),
    {
        Self::with_timeout_nanos(failure_threshold, reset_timeout.as_nanos())
    }

    /// Builds a closed breaker whose reset timeout is given in nanoseconds.
    pub fn with_timeout_nanos(failure_threshold: u32, reset_timeout: u128) -> (breaker: Self)
        ensures
            breaker@ == BreakerModel::initial(failure_threshold as nat, reset_timeout as nat),
            breaker@.wf(),
    {
        CircuitBreaker {
            failure_threshold,
            reset_timeout,
            state: CircuitState::Closed,
            failures: 0,
            last_failure_time: None,
            built: Instant::now(),
            on_open: None,
            on_close: None,
            on_half_open: None,
            notified: Ghost(Seq::empty()),
            readings: Ghost(Seq::empty()),
        }
    }

    /// Issues the notification for `edge`: invokes the callback registered
    /// for it, if there is one, and puts the edge on record.
    fn notify(&mut self, edge: Transition)
        ensures
            final(self)@ == old(self)@.notify(edge),
            final(self)@.honoured(edge),
    {
        proof {
            use_type_invariant(&*self);
        }
        match edge {
            Transition::Opened => {
                if let Some(callback) = &self.on_open {
                    callback.call();
                }
            },
            Transition::Closed => {
                if let Some(callback) = &self.on_close {
                    callback.call();
                }
            },
            Transition::HalfOpened => {
                if let Some(callback) = &self.on_half_open {
                    callback.call();
                }
            },
        }
        self.notified = Ghost(self.notified@.push(edge));
    }

    /// Forces the circuit open.
    fn trip(&mut self)
        requires
            old(self)@.last_failure_time is Some,
        ensures
            final(self)@ == (BreakerModel { state: CircuitState::Open, ..old(self)@ }).notify(
                Transition::Opened,
            ),
            final(self)@.honoured(Transition::Opened),
    {
        proof {
            use_type_invariant(&*self);
        }
        self.state = CircuitState::Open;
        self.notify(Transition::Opened);
    }

    /// Closes the circuit and clears the failure counter.
    fn reset(&mut self)
        ensures
            final(self)@ == (BreakerModel {
                state: CircuitState::Closed,
                failures: 0,
                ..old(self)@
            }).notify(Transition::Closed),
            final(self)@.honoured(Transition::Closed),
    {
        proof {
            use_type_invariant(&*self);
        }
        self.failures = 0;
        self.state = CircuitState::Closed;
        self.notify(Transition::Closed);
    }

    /// Time passed at `now` since the last recorded failure.
    fn elapsed_at(&self, now: u128) -> (passed: u128)
        ensures
            passed == self@.elapsed(now as nat),
    {
        match self.last_failure_time {
            Some(then) => if now >= then {
                now - then
            } else {
                0
            },
            None => 0,
        }
    }

    /// Looks at the breaker at time `now` and returns its state.
    ///
    /// This is not a pure read: an open circuit whose reset timeout has
    /// passed turns `HalfOpen` here, and `on_half_open` is notified.
    pub fn state_at(&mut self, now: u128) -> (state: CircuitState)
        ensures
            final(self)@ == old(self)@.poll(now as nat),
            state == final(self)@.state,
            final(self)@.honoured_since(old(self)@),
            final(self)@.wf(),
    {
        proof {
            use_type_invariant(&*self);
        }
        if self.state == CircuitState::Open && self.elapsed_at(now) >= self.reset_timeout {
            self.state = CircuitState::HalfOpen;
            self.notify(Transition::HalfOpened);
        }
        self.state
    }

    /// Records a failure observed at time `now`.
    ///
    /// The failure is counted and its time kept. The circuit opens, and
    /// `on_open` is notified, when the failure is that of a probe or when
    /// the count has reached the threshold.
    pub fn handle_failure_at(&mut self, now: u128)
        ensures
            final(self)@ == old(self)@.fail(now as nat),
            final(self)@.honoured_since(old(self)@),
            final(self)@.wf(),
    {
        proof {
            use_type_invariant(&*self);
        }
        let counted: u32 = if self.failures < u32::MAX {
            self.failures + 1
        } else {
            self.failures
        };
        let trips = self.state == CircuitState::HalfOpen || counted >= self.failure_threshold;
        self.last_failure_time = Some(now);
        if trips {
            self.trip();
        }
        self.failures = counted;
    }

    /// Records a success.
    ///
    /// The failure counter goes back to zero. A probing circuit closes, and
    /// `on_close` is notified; an open circuit stays open.
    pub fn handle_success(&mut self)
        ensures
            final(self)@ == old(self)@.succeed(),
            final(self)@.honoured_since(old(self)@),
            final(self)@.wf(),
    {
        proof {
            use_type_invariant(&*self);
        }
        if self.state == CircuitState::HalfOpen {
            self.reset();
        } else {
            self.failures = 0;
        }
    }

    /// Runs `operation` under the guard of the breaker, at time `now`.
    ///
    /// The breaker is looked at first, as [`CircuitBreaker::state_at`] does.
    /// If the circuit is then still open, the call is rejected with
    /// `CircuitOpen` and `operation` is not run; this is why `operation`
    /// needs to be callable only when the call is let through. Otherwise
    /// `operation` runs exactly once. Its success is recorded as
    /// [`CircuitBreaker::handle_success`] does and its value returned; its
    /// failure is recorded as [`CircuitBreaker::handle_failure_at`] does,
    /// at the same time `now`, and its cause returned in `OperationFailed`.
    pub fn execute_at<F, T, E>(&mut self, now: u128, operation: F) -> (result: Result<
        T,
        CircuitBreakerError<E>,
    >) where F: FnOnce() -> Result<T, E>
        requires
            !old(self)@.rejects(now as nat) ==> operation.requires(()),
        ensures
            match result {
                Ok(value) => {
                    &&& !old(self)@.rejects(now as nat)
                    &&& operation.ensures((), Ok(value))
                    &&& final(self)@ == old(self)@.poll(now as nat).succeed()
                },
                Err(CircuitBreakerError::OperationFailed(cause)) => {
                    &&& !old(self)@.rejects(now as nat)
                    &&& operation.ensures((), Err(cause))
                    &&& final(self)@ == old(self)@.poll(now as nat).fail(now as nat)
                },
                Err(CircuitBreakerError::CircuitOpen) => {
                    &&& old(self)@.rejects(now as nat)
                    &&& final(self)@ == old(self)@
                },
            },
            final(self)@.honoured_since(old(self)@),
            final(self)@.wf(),
    {
        if self.state_at(now) == CircuitState::Open {
            return Err(CircuitBreakerError::CircuitOpen);
        }
        match operation() {
            Ok(value) => {
                self.handle_success();
                Ok(value)
            },
            Err(cause) => {
                self.handle_failure_at(now);
                Err(CircuitBreakerError::OperationFailed(cause))
            },
        }
    }

    /// Reads the system clock, in nanoseconds since the breaker was built,
    /// and puts the reading on record.
    fn clock(&mut self) -> (now: u128)
        ensures
            final(self)@ == old(self)@.read(now as nat),
    {
        proof {
            use_type_invariant(&*self);
        }
        let now = self.built.elapsed().as_nanos();
        self.readings = Ghost(self.readings@.push(now as nat));
        now
    }

    /// Looks at the breaker now, by the system clock, and returns its
    /// state.
    ///
    /// This is [`CircuitBreaker::state_at`] at what the clock reads, so it
    /// can turn an open circuit `HalfOpen`. The reading goes on record,
    /// where the contract finds it.
    pub fn state(&mut self) -> (state: CircuitState)
        ensures
            final(self)@ == old(self)@.read(final(self)@.latest()).poll(final(self)@.latest()),
            state == final(self)@.state,
            final(self)@.honoured_since(old(self)@),
            final(self)@.wf(),
    {
        let now = self.clock();
        self.state_at(now)
    }

    /// Records a failure observed now, by the system clock.
    ///
    /// This is [`CircuitBreaker::handle_failure_at`] at what the clock
    /// reads. The reading goes on record, where the contract finds it.
    pub fn handle_failure(&mut self)
        ensures
            final(self)@ == old(self)@.read(final(self)@.latest()).fail(final(self)@.latest()),
            final(self)@.honoured_since(old(self)@),
            final(self)@.wf(),
    {
        let now = self.clock();
        self.handle_failure_at(now);
    }

    /// Runs `operation` under the guard of the breaker, by the system
    /// clock.
    ///
    /// The clock is read once on entry, to decide whether an open circuit
    /// may probe, and once more if `operation` fails, to time the failure.
    /// Both readings go on record. On them this is
    /// [`CircuitBreaker::execute_at`]: the call is rejected exactly when the
    /// circuit is open and its cooldown has not run out at the first
    /// reading, a rejection changes nothing but the record of readings, and
    /// `operation` runs once if the call is let through and not at all if
    /// it is rejected.
    ///
    /// Which way a call on an open circuit goes is for the clock to say, so
    /// `operation` has to be callable in any case.
    pub fn execute<F, T, E>(&mut self, operation: F) -> (result: Result<
        T,
        CircuitBreakerError<E>,
    >) where F: FnOnce() -> Result<T, E>
        requires
            operation.requires(()),
        ensures
            ({
                let now = final(self)@.first_since(old(self)@);
                let later = final(self)@.latest();
                let entered = old(self)@.read(now);
                match result {
                    Ok(value) => {
                        &&& !old(self)@.rejects(now)
                        &&& operation.ensures((), Ok(value))
                        &&& final(self)@ == entered.poll(now).succeed()
                    },
                    Err(CircuitBreakerError::OperationFailed(cause)) => {
                        &&& !old(self)@.rejects(now)
                        &&& operation.ensures((), Err(cause))
                        &&& final(self)@ == entered.poll(now).read(later).fail(later)
                    },
                    Err(CircuitBreakerError::CircuitOpen) => {
                        &&& old(self)@.rejects(now)
                        &&& final(self)@ == entered
                    },
                }
            }),
            final(self)@.honoured_since(old(self)@),
            final(self)@.wf(),
    {
        let now = self.clock();
        if self.state_at(now) == CircuitState::Open {
            return Err(CircuitBreakerError::CircuitOpen);
        }
        match operation() {
            Ok(value) => {
                self.handle_success();
                Ok(value)
            },
            Err(cause) => {
                let later = self.clock();
                self.handle_failure_at(later);
                Err(CircuitBreakerError::OperationFailed(cause))
            },
        }
    }

    /// The state as it stands, without looking at the clock.
    pub fn current_state(&self) -> (state: CircuitState)
        ensures
            state == self@.state,
    {
        self.state
    }

    /// Failures recorded since the last success.
    pub fn failure_count(&self) -> (count: u32)
        ensures
            count == self@.failures,
    {
        self.failures
    }

    /// Number of consecutive failures that opens the circuit.
    pub fn failure_threshold(&self) -> (threshold: u32)
        ensures
            threshold == self@.failure_threshold,
    {
        self.failure_threshold
    }

    /// Least time, in nanoseconds, the circuit stays open before a probe.
    pub fn reset_timeout_nanos(&self) -> (nanos: u128)
        ensures
            nanos == self@.reset_timeout,
    {
        self.reset_timeout
    }

    /// Registers the callback to invoke whenever the circuit is forced
    /// open, in place of any registered before. The setter itself invokes
    /// nothing and changes nothing else.
    pub fn set_on_open<F>(&mut self, callback: F) where F: Fn() + Send + Sync + 'static
        requires
            callback.requires(()),
        ensures
            final(self)@ == (BreakerModel {
                on_open: Some(call_ensures(callback, (), ())),
                ..old(self)@
            }),
            final(self)@.wf(),
    {
        proof {
            use_type_invariant(&*self);
        }
        self.on_open = register(callback);
    }

    /// Registers the callback to invoke whenever a probe closes the
    /// circuit, in place of any registered before. The setter itself invokes
    /// nothing and changes nothing else.
    pub fn set_on_close<F>(&mut self, callback: F) where F: Fn() + Send + Sync + 'static
        requires
            callback.requires(()),
        ensures
            final(self)@ == (BreakerModel {
                on_close: Some(call_ensures(callback, (), ())),
                ..old(self)@
            }),
            final(self)@.wf(),
    {
        proof {
            use_type_invariant(&*self);
        }
        self.on_close = register(callback);
    }

    /// Registers the callback to invoke whenever the circuit starts
    /// probing, in place of any registered before. The setter itself invokes
    /// nothing and changes nothing else.
    pub fn set_on_half_open<F>(&mut self, callback: F) where F: Fn() + Send + Sync + 'static
        requires
            callback.requires(()),
        ensures
            final(self)@ == (BreakerModel {
                on_half_open: Some(call_ensures(callback, (), ())),
                ..old(self)@
            }),
            final(self)@.wf(),
    {
        proof {
            use_type_invariant(&*self);
        }
        self.on_half_open = register(callback);
    }
}

} // verus!
