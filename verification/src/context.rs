//! The part of a run loop's state that handlers can reach.
use crate::actor::Actor;
use core::marker::PhantomData;
use vstd::prelude::*;

verus! {

/// Handed to every handler call. It holds the exit flag, which goes from
/// unset to set and never back: nothing outside this crate can make a context
/// or unset the flag.
pub struct Context<A: Actor> {
    exit: bool,
    owner: PhantomData<A>,
}

impl<A: Actor> Context<A> {
    /// Whether termination has been requested.
    pub closed spec fn terminated(&self) -> bool {
        self.exit
    }

    /// A context whose exit flag is unset.
    pub(crate) fn new() -> (ctx: Self)
        ensures
            !ctx.terminated(),
    {
        Context { exit: false, owner: PhantomData }
    }

    /// Requests that the run loop stops once the current handler has returned.
    /// Asking again changes nothing.
    pub fn terminate(&mut self)
        ensures
            final(self).terminated(),
    {
        self.exit = true;
    }

    /// Whether termination has been requested.
    pub fn is_terminated(&self) -> (set: bool)
        ensures
            set == self.terminated(),
    {
        self.exit
    }
}

} // verus!
