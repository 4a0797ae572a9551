use vstd::prelude::*;

verus! {

/// Why a guarded call did not produce a value.
///
/// The two variants are disjoint: either the breaker refused to run the
/// operation, or the operation ran and reported a failure of its own.
#[derive(Debug)]
pub enum CircuitBreakerError<E> {
    /// The circuit was open and the reset timeout had not elapsed; the
    /// operation was not run. Retrying later may succeed.
    CircuitOpen,
    /// The operation ran and failed; its cause is carried unchanged.
    OperationFailed(E),
}

impl<E> CircuitBreakerError<E> {
    /// The text by which an error is shown.
    pub open spec fn label(self) -> Seq<char> {
        match self {
            CircuitBreakerError::CircuitOpen => "Circuit is open"@,
            CircuitBreakerError::OperationFailed(_) => "Operation failed"@,
        }
    }

    /// True when the call was rejected without running the operation.
    pub fn is_circuit_open(&self) -> (rejected: bool)
        ensures
            rejected == (*self is CircuitOpen),
    {
        match self {
            CircuitBreakerError::CircuitOpen => true,
            CircuitBreakerError::OperationFailed(_) => false,
        }
    }

    /// Hands back the operation's own failure, if the operation ran.
    pub fn into_cause(self) -> (cause: Option<E>)
        ensures
            cause == match self {
                CircuitBreakerError::CircuitOpen => None,
                CircuitBreakerError::OperationFailed(e) => Some(e),
            },
    {
        match self {
            CircuitBreakerError::CircuitOpen => None,
            CircuitBreakerError::OperationFailed(e) => Some(e),
        }
    }

    /// Renders the kind of error as text. The cause of a failed operation
    /// is not rendered; use [`CircuitBreakerError::into_cause`] to inspect it.
    pub fn to_string(&self) -> (text: String)
        ensures
            text@ == self.label(),
    {
        match self {
            CircuitBreakerError::CircuitOpen => "Circuit is open".to_owned(),
            CircuitBreakerError::OperationFailed(_) => "Operation failed".to_owned(),
        }
    }
}

} // verus!
