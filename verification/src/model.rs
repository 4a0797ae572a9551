//! The mathematical model of a circuit breaker.
//!
//! A [`BreakerModel`] is the abstract value of a breaker: its configuration,
//! its position, its counters, the promises of the callbacks registered
//! with it, the record of the notifications it has issued and the record of
//! the clock readings it has taken. The spec functions on it define every
//! step a breaker can take; the executable breaker is specified entirely in
//! terms of them.
//!
//! A callback is known by its promise, which is what it ensures of a call.
//! Whoever invokes a callback learns that its promise holds, so a contract
//! that says a promise holds says that the callback was invoked.
//!
//! Time is a reading of a monotonic clock in nanoseconds; the model itself
//! does not assume that successive readings grow. A step is given its time
//! as an argument. A method that reads the system clock itself puts the
//! reading on record first, so that its contract can say at which time the
//! step was taken.

use vstd::prelude::*;
use crate::circuit_state::CircuitState;

verus! {

/// An edge of the state machine on which a callback is due.
#[derive(Debug, Clone, Copy, PartialEq, Eq, Structural)]
pub enum Transition {
    /// The circuit was forced open; `on_open` is due.
    Opened,
    /// A probe succeeded and the circuit closed; `on_close` is due.
    Closed,
    /// The cooldown ran out and the circuit started probing; `on_half_open`
    /// is due.
    HalfOpened,
}

/// The largest value the failure counter can hold; it stays there instead
/// of wrapping.
pub open spec fn max_failures() -> nat {
    0xffff_ffff
}

/// The abstract value of a circuit breaker.
pub struct BreakerModel {
    /// Number of consecutive failures that opens the circuit.
    pub failure_threshold: nat,
    /// Least time, in nanoseconds, the circuit stays open before a probe.
    pub reset_timeout: nat,
    /// Current position.
    pub state: CircuitState,
    /// Failures recorded since the last success.
    pub failures: nat,
    /// Clock reading at the most recent recorded failure.
    pub last_failure_time: Option<nat>,
    /// The promise of the callback registered for [`Transition::Opened`],
    /// if one is registered: what that callback ensures of a call. A
    /// promise belongs to the callback, so it tells one callback from
    /// another, and it is known to hold once the callback has been invoked.
    pub on_open: Option<bool>,
    /// The promise of the callback registered for [`Transition::Closed`].
    pub on_close: Option<bool>,
    /// The promise of the callback registered for
    /// [`Transition::HalfOpened`].
    pub on_half_open: Option<bool>,
    /// Every notification issued so far, oldest first. Issuing a
    /// notification invokes the callback registered for its edge, if any.
    pub notified: Seq<Transition>,
    /// Every reading the breaker itself has taken of the system clock,
    /// oldest first. A step that is given the time takes no reading.
    pub readings: Seq<nat>,
}

impl BreakerModel {
    /// The model of a newly built breaker.
    pub open spec fn initial(failure_threshold: nat, reset_timeout: nat) -> Self {
        BreakerModel {
            failure_threshold,
            reset_timeout,
            state: CircuitState::Closed,
            failures: 0,
            last_failure_time: None,
            on_open: None,
            on_close: None,
            on_half_open: None,
            notified: Seq::empty(),
            readings: Seq::empty(),
        }
    }

    /// What holds of every breaker at rest.
    ///
    /// An open circuit has a recorded failure time, and a closed circuit
    /// has fewer failures on record than its threshold asks for (none at
    /// all when the threshold is zero). Counter and threshold fit the
    /// counter's range.
    pub open spec fn wf(self) -> bool {
        &&& self.failures <= max_failures()
        &&& self.failure_threshold <= max_failures()
        &&& self.state == CircuitState::Open ==> self.last_failure_time is Some
        &&& self.state == CircuitState::Closed ==> self.failures == 0 || self.failures
            < self.failure_threshold
    }

    /// The two models agree on what is fixed when a breaker is set up: the
    /// threshold, the timeout and the callbacks registered, each known by
    /// its promise.
    pub open spec fn same_setup(self, other: Self) -> bool {
        &&& self.failure_threshold == other.failure_threshold
        &&& self.reset_timeout == other.reset_timeout
        &&& self.on_open == other.on_open
        &&& self.on_close == other.on_close
        &&& self.on_half_open == other.on_half_open
    }

    /// Time passed at `now` since the last recorded failure; zero when no
    /// failure is on record or the clock reads earlier than it did then.
    pub open spec fn elapsed(self, now: nat) -> nat {
        match self.last_failure_time {
            Some(then) => if now >= then {
                (now - then) as nat
            } else {
                0
            },
            None => 0,
        }
    }

    /// The circuit is open and its cooldown has run out at `now`.
    pub open spec fn cooled_down(self, now: nat) -> bool {
        self.state == CircuitState::Open && self.elapsed(now) >= self.reset_timeout
    }

    /// A call arriving at `now` is turned away: the circuit is open and its
    /// cooldown has not run out.
    pub open spec fn rejects(self, now: nat) -> bool {
        self.state == CircuitState::Open && self.elapsed(now) < self.reset_timeout
    }

    /// The same model with one more clock reading on record.
    pub open spec fn read(self, now: nat) -> Self {
        BreakerModel { readings: self.readings.push(now), ..self }
    }

    /// The clock reading taken most recently.
    pub open spec fn latest(self) -> nat
        recommends
            self.readings.len() > 0,
    {
        self.readings.last()
    }

    /// The first clock reading taken after the breaker was as `earlier`.
    pub open spec fn first_since(self, earlier: Self) -> nat
        recommends
            self.readings.len() > earlier.readings.len(),
    {
        self.readings[earlier.readings.len() as int]
    }

    /// The promise of the callback registered for `edge`, if any.
    pub open spec fn registered(self, edge: Transition) -> Option<bool> {
        match edge {
            Transition::Opened => self.on_open,
            Transition::Closed => self.on_close,
            Transition::HalfOpened => self.on_half_open,
        }
    }

    /// The callback registered for `edge`, if there is one, has kept its
    /// promise, as it has once it has been invoked.
    pub open spec fn honoured(self, edge: Transition) -> bool {
        match self.registered(edge) {
            Some(promise) => promise,
            None => true,
        }
    }

    /// Every notification issued since the breaker was as `earlier` went to
    /// the callback registered for its edge: that callback has kept its
    /// promise.
    pub open spec fn honoured_since(self, earlier: Self) -> bool {
        forall|i: int|
            earlier.notified.len() <= i < self.notified.len() ==> self.honoured(
                #[trigger] self.notified[i],
            )
    }

    /// The same model with one more notification on record.
    pub open spec fn notify(self, edge: Transition) -> Self {
        BreakerModel { notified: self.notified.push(edge), ..self }
    }

    /// The effect of looking at the breaker at `now`: an open circuit whose
    /// cooldown has run out starts probing, anything else is left alone.
    pub open spec fn poll(self, now: nat) -> Self {
        if self.cooled_down(now) {
            BreakerModel { state: CircuitState::HalfOpen, ..self }.notify(Transition::HalfOpened)
        } else {
            self
        }
    }

    /// The failure counter after one more failure.
    pub open spec fn bumped(self) -> nat {
        if self.failures < max_failures() {
            self.failures + 1
        } else {
            self.failures
        }
    }

    /// A failure recorded at `now` forces the circuit open: it is the
    /// failure of a probe, or it brings the counter up to the threshold.
    pub open spec fn trips(self) -> bool {
        self.state == CircuitState::HalfOpen || self.bumped() >= self.failure_threshold
    }

    /// The effect of recording a failure at `now`.
    pub open spec fn fail(self, now: nat) -> Self {
        let counted = BreakerModel {
            failures: self.bumped(),
            last_failure_time: Some(now),
            ..self
        };
        if self.trips() {
            BreakerModel { state: CircuitState::Open, ..counted }.notify(Transition::Opened)
        } else {
            counted
        }
    }

    /// The effect of recording a success.
    pub open spec fn succeed(self) -> Self {
        if self.state == CircuitState::HalfOpen {
            BreakerModel { state: CircuitState::Closed, failures: 0, ..self }.notify(
                Transition::Closed,
            )
        } else {
            BreakerModel { failures: 0, ..self }
        }
    }

    /// The effect of recording one failure at each of `times`, in order.
    pub open spec fn fail_each(self, times: Seq<nat>) -> Self
        decreases times.len(),
    {
        if times.len() == 0 {
            self
        } else {
            self.fail_each(times.drop_last()).fail(times.last())
        }
    }

    /// The effect of one guarded call at each of `times`, in order, each of
    /// which ran and failed.
    pub open spec fn fail_calls(self, times: Seq<nat>) -> Self
        decreases times.len(),
    {
        if times.len() == 0 {
            self
        } else {
            self.fail_calls(times.drop_last()).poll(times.last()).fail(times.last())
        }
    }

    /// The effect of looking at the breaker at each of `times`, in order.
    pub open spec fn poll_each(self, times: Seq<nat>) -> Self
        decreases times.len(),
    {
        if times.len() == 0 {
            self
        } else {
            self.poll_each(times.drop_last()).poll(times.last())
        }
    }
}

} // verus!
