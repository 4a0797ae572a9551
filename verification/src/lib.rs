//! A circuit breaker: a guard around calls to an unreliable operation.
//!
//! The breaker counts consecutive failures, rejects calls once a threshold
//! is reached, and after a cooldown lets a probe through to find out
//! whether the dependency has recovered.
//!
//! [`model`] defines what a breaker is and does in mathematical terms, and
//! [`laws`] proves what follows from that. [`circuit_breaker`] holds the
//! executable breaker, each of whose methods is proved to take exactly the
//! step the model defines. [`shared`] puts a breaker behind a lock, for
//! callers that run at the same time. [`clock`] lists what is taken on
//! trust about the system clock.

use vstd::prelude::*;

mod callback;
pub mod circuit_breaker;
pub mod circuit_state;
pub mod clock;
pub mod error;
pub mod laws;
pub mod model;
pub mod shared;

pub use circuit_breaker::CircuitBreaker;
pub use circuit_state::CircuitState;
pub use error::CircuitBreakerError;
pub use model::{BreakerModel, Transition};

verus! {

/// Adds two sizes whose sum is representable.
pub fn add(left: usize, right: usize) -> (sum: usize)
    requires
        left + right <= usize::MAX,
    ensures
        sum == left + right,
{
    left + right
}

} // verus!
