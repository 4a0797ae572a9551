//! Storage for the callbacks a breaker invokes on its transitions.

use vstd::prelude::*;

verus! {

/// A registered callback whose closure type has been forgotten.
pub(crate) trait Callback: Send + Sync {
    /// What the callback ensures of a call. It is a property of the
    /// callback itself, so it does not depend on when the call is made,
    /// and it is known to hold once the callback has been invoked.
    spec fn promised(&self) -> bool;

    /// Runs the callback once.
    fn call(&self)
        ensures
            self.promised(),
    ;
}

/// A closure that is known to accept being called.
pub(crate) struct FnCallback<F: Fn() + Send + Sync> {
    run: F,
}

impl<F: Fn() + Send + Sync> FnCallback<F> {
    #[verifier::type_invariant]
    spec fn callable(self) -> bool {
        call_requires(self.run, ())
    }

    pub(crate) fn new(run: F) -> (wrapped: Self)
        requires
            call_requires(run, ()),
        ensures
            wrapped.closure() == run,
            wrapped.promised() == call_ensures(run, (), ()),
    {
        FnCallback { run }
    }

    /// The closure that was wrapped.
    pub(crate) closed spec fn closure(self) -> F {
        self.run
    }
}

impl<F: Fn() + Send + Sync> Callback for FnCallback<F> {
    closed spec fn promised(&self) -> bool {
        call_ensures(self.run, (), ())
    }

    fn call(&self) {
        proof {
            use_type_invariant(self);
        }
        (self.run)()
    }
}

/// Wraps a closure for a callback slot, its type forgotten and its promise
/// kept.
pub(crate) fn register<F: Fn() + Send + Sync + 'static>(run: F) -> (slot: Option<
    Box<dyn Callback>,
>)
    requires
        call_requires(run, ()),
    ensures
        slot is Some,
        slot->Some_0.promised() == call_ensures(run, (), ()),
{
    Some(Box::new(FnCallback::new(run)))
}

} // verus!
