use vstd::prelude::*;

verus! {

/// The position of a circuit breaker.
#[derive(Debug, Clone, Copy, PartialEq, Eq, Structural)]
pub enum CircuitState {
    /// Normal operation: guarded calls pass through.
    Closed,
    /// Tripped: guarded calls are rejected without being run.
    Open,
    /// Probing: the outcome of the next guarded call decides between
    /// `Closed` and `Open`.
    HalfOpen,
}

impl CircuitState {
    /// The text by which a state is shown.
    pub open spec fn label(self) -> Seq<char> {
        match self {
            CircuitState::Closed => "Closed"@,
            CircuitState::Open => "Open"@,
            CircuitState::HalfOpen => "HalfOpen"@,
        }
    }

    /// Renders the state as text: `Closed`, `Open` or `HalfOpen`.
    pub fn to_string(&self) -> (text: String)
        ensures
            text@ == self.label(),
    {
        match self {
            CircuitState::Closed => "Closed".to_owned(),
            CircuitState::Open => "Open".to_owned(),
            CircuitState::HalfOpen => "HalfOpen".to_owned(),
        }
    }
}

} // verus!
