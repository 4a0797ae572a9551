//! Laws of the circuit breaker, proved of its model.
//!
//! Every method of the executable breaker is specified by a step of
//! [`BreakerModel`], so what is proved here of the steps holds of the
//! breaker itself.

use vstd::prelude::*;
use crate::circuit_state::CircuitState;
use crate::model::{max_failures, BreakerModel, Transition};

verus! {

/// Every step keeps a breaker well formed; in particular an open circuit
/// always has the time of a failure on record.
pub proof fn lemma_steps_keep_wf(m: BreakerModel, now: nat)
    requires
        m.wf(),
    ensures
        m.poll(now).wf(),
        m.fail(now).wf(),
        m.succeed().wf(),
{
}

/// Taking a reading of the clock decides nothing: it changes only the
/// record of readings, and the steps come out the same whether the reading
/// was put on record before them or after.
pub proof fn lemma_reading_decides_nothing(m: BreakerModel, reading: nat, now: nat)
    ensures
        m.read(reading).wf() == m.wf(),
        m.read(reading).same_setup(m),
        m.read(reading).rejects(now) == m.rejects(now),
        m.read(reading).poll(now) == m.poll(now).read(reading),
        m.read(reading).fail(now) == m.fail(now).read(reading),
        m.read(reading).succeed() == m.succeed().read(reading),
        m.poll(now).readings == m.readings,
        m.fail(now).readings == m.readings,
        m.succeed().readings == m.readings,
{
}

/// Steps touch neither the configuration nor the registered callbacks.
pub proof fn lemma_steps_keep_configuration(m: BreakerModel, now: nat)
    ensures
        m.poll(now).same_setup(m),
        m.fail(now).same_setup(m),
        m.succeed().same_setup(m),
{
}

/// Kept promises add up over consecutive calls: if every notification
/// between `a` and `b` went to its callback, and every one between `b` and
/// `c` did, and no callback was replaced after `b`, then every notification
/// between `a` and `c` went to its callback.
pub proof fn lemma_kept_promises_add_up(a: BreakerModel, b: BreakerModel, c: BreakerModel)
    requires
        b.honoured_since(a),
        c.honoured_since(b),
        b.notified.is_prefix_of(c.notified),
        c.same_setup(b),
    ensures
        c.honoured_since(a),
{
    assert forall|i: int| a.notified.len() <= i < c.notified.len() implies c.honoured(
        #[trigger] c.notified[i],
    ) by {
        if i < b.notified.len() {
            assert(c.notified[i] == b.notified[i]);
            assert(b.honoured(b.notified[i]));
        }
    }
}

/// No step takes an open circuit straight to closed: the way from `Open`
/// to `Closed` leads through `HalfOpen`.
pub proof fn lemma_open_closes_only_through_probe(m: BreakerModel, now: nat)
    requires
        m.state == CircuitState::Open,
    ensures
        m.poll(now).state != CircuitState::Closed,
        m.fail(now).state != CircuitState::Closed,
        m.succeed().state != CircuitState::Closed,
{
}

/// What a run of recorded failures leaves of a closed circuit.
proof fn lemma_fail_each_counts(m: BreakerModel, times: Seq<nat>)
    requires
        m.wf(),
        m.failure_threshold >= 1,
        m.state == CircuitState::Closed,
    ensures
        m.fail_each(times).wf(),
        m.fail_each(times).failure_threshold == m.failure_threshold,
        m.fail_each(times).failures == if m.failures + times.len() <= max_failures() {
            m.failures + times.len()
        } else {
            max_failures()
        },
        m.fail_each(times).state == if m.failures + times.len() >= m.failure_threshold {
            CircuitState::Open
        } else {
            CircuitState::Closed
        },
    decreases times.len(),
{
    if times.len() > 0 {
        lemma_fail_each_counts(m, times.drop_last());
    }
}

/// What a run of failed calls leaves of a closed circuit.
proof fn lemma_fail_calls_counts(m: BreakerModel, times: Seq<nat>)
    requires
        m.wf(),
        m.failure_threshold >= 1,
        m.state == CircuitState::Closed,
    ensures
        m.fail_calls(times).wf(),
        m.fail_calls(times).failure_threshold == m.failure_threshold,
        m.fail_calls(times).failures == if m.failures + times.len() <= max_failures() {
            m.failures + times.len()
        } else {
            max_failures()
        },
        m.fail_calls(times).state == if m.failures + times.len() >= m.failure_threshold {
            CircuitState::Open
        } else {
            CircuitState::Closed
        },
    decreases times.len(),
{
    if times.len() > 0 {
        lemma_fail_calls_counts(m, times.drop_last());
    }
}

/// Consecutive failures open a closed circuit exactly when they reach the
/// threshold.
///
/// Take a closed circuit with a threshold of at least one. After a run of
/// failures with no success in between, whether recorded directly or as the
/// outcome of guarded calls, the circuit is open if the failures on record
/// before the run and those of the run together number at least the
/// threshold, and closed otherwise. With no failure on record at the start,
/// as in a new breaker or after a success, a run of as many failures as the
/// threshold opens the circuit and a shorter run leaves it closed.
pub proof fn lemma_failures_open_at_threshold(m: BreakerModel, times: Seq<nat>)
    requires
        m.wf(),
        m.failure_threshold >= 1,
        m.state == CircuitState::Closed,
    ensures
        m.fail_each(times).state == if m.failures + times.len() >= m.failure_threshold {
            CircuitState::Open
        } else {
            CircuitState::Closed
        },
        m.fail_calls(times).state == m.fail_each(times).state,
        m.failures == 0 && times.len() == m.failure_threshold ==> m.fail_each(times).state
            == CircuitState::Open,
        m.failures == 0 && times.len() < m.failure_threshold ==> m.fail_each(times).state
            == CircuitState::Closed,
{
    lemma_fail_each_counts(m, times);
    lemma_fail_calls_counts(m, times);
}

/// While the circuit is open and less than the reset timeout has passed
/// since the last failure, a guarded call is rejected, and the rejection
/// changes nothing, so the next call meets the same breaker.
pub proof fn lemma_open_circuit_rejects(m: BreakerModel, now: nat)
    requires
        m.state == CircuitState::Open,
        m.elapsed(now) < m.reset_timeout,
    ensures
        m.rejects(now),
        m.poll(now) == m,
{
}

/// Once the reset timeout has passed since the last failure, looking at an
/// open circuit turns it `HalfOpen` and issues exactly one `HalfOpened`
/// notification; a guarded call arriving then is let through.
pub proof fn lemma_cooldown_starts_probe(m: BreakerModel, now: nat)
    requires
        m.state == CircuitState::Open,
        m.elapsed(now) >= m.reset_timeout,
    ensures
        !m.rejects(now),
        m.poll(now).state == CircuitState::HalfOpen,
        m.poll(now).notified == m.notified.push(Transition::HalfOpened),
        m.poll(now) == (BreakerModel { state: CircuitState::HalfOpen, ..m }).notify(
            Transition::HalfOpened,
        ),
{
}

/// A guarded call that succeeds while the circuit is probing closes it,
/// issues exactly one `Closed` notification and clears the failure counter.
pub proof fn lemma_probe_success_closes(m: BreakerModel, now: nat)
    requires
        m.state == CircuitState::HalfOpen,
    ensures
        !m.rejects(now),
        m.poll(now).succeed().state == CircuitState::Closed,
        m.poll(now).succeed().failures == 0,
        m.poll(now).succeed().notified == m.notified.push(Transition::Closed),
{
}

/// A guarded call that fails while the circuit is probing opens it again
/// and issues exactly one `Opened` notification, whatever the failure
/// counter says.
pub proof fn lemma_probe_failure_reopens(m: BreakerModel, now: nat)
    requires
        m.state == CircuitState::HalfOpen,
    ensures
        !m.rejects(now),
        m.poll(now).fail(now).state == CircuitState::Open,
        m.poll(now).fail(now).last_failure_time == Some(now),
        m.poll(now).fail(now).notified == m.notified.push(Transition::Opened),
{
}

/// Looking at a circuit that is already probing, or closed, changes
/// nothing however often it is done: no notification is issued again.
pub proof fn lemma_polls_are_idle_unless_open(m: BreakerModel, times: Seq<nat>)
    requires
        m.state != CircuitState::Open,
    ensures
        m.poll_each(times) == m,
    decreases times.len(),
{
    if times.len() > 0 {
        lemma_polls_are_idle_unless_open(m, times.drop_last());
    }
}

/// Looking twice at a breaker at the same time is the same as looking
/// once.
pub proof fn lemma_poll_is_idempotent(m: BreakerModel, now: nat)
    ensures
        m.poll(now).poll(now) == m.poll(now),
{
}

} // verus!
