//! The contracts that a user type fulfils to be an actor.
use crate::context::Context;
use vstd::prelude::*;

verus! {

/// Marks a type as one that can be sent to an actor.
pub trait Message {

}

/// A unit of state that is owned by one run loop and changed only by its own
/// hooks and handlers.
pub trait Actor: Sized + Send + 'static {
    /// What `on_entry` may do to the actor, other than leave it as it is.
    /// Left as it is, it allows everything.
    open spec fn entered(before: Self, after: Self) -> bool {
        true
    }

    /// What `on_exit` may do to the actor, other than leave it as it is.
    /// Left as it is, it allows everything.
    open spec fn exited(before: Self, after: Self) -> bool {
        true
    }

    /// Runs once, before the first message is taken from the mailbox. Does
    /// nothing unless the actor says otherwise.
    fn on_entry(&mut self)
        ensures
            *final(self) == *old(self) || Self::entered(*old(self), *final(self)),
    {
    }

    /// Runs once, after the run loop has decided to stop. Does nothing
    /// unless the actor says otherwise.
    fn on_exit(&mut self)
        ensures
            *final(self) == *old(self) || Self::exited(*old(self), *final(self)),
    {
    }
}

/// The handler of an actor for messages of type `M`. An actor may have one for
/// each of any number of message types.
pub trait Receives<M: Message>: Actor {
    /// What one call of the handler may do: the actor goes from `before` to
    /// `after` on `msg`, and `stop` tells whether it asked to terminate.
    /// Left as it is, it allows everything; an actor that wants its behaviour
    /// carried through the run loop's contracts states it here.
    open spec fn handled(before: Self, msg: M, after: Self, stop: bool) -> bool {
        true
    }

    /// Consumes `msg`. The context is never terminated yet when a handler is
    /// called; the handler may terminate it.
    fn process(&mut self, msg: M, ctx: &mut Context<Self>)
        requires
            !old(ctx).terminated(),
        ensures
            Self::handled(*old(self), msg, *final(self), final(ctx).terminated()),
    ;
}

} // verus!
