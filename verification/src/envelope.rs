//! Envelopes: messages of any type behind one type per actor.
use crate::actor::{Actor, Message, Receives};
use crate::context::Context;
use vstd::prelude::*;

verus! {

/// What an envelope holds, seen without the type of the message. The only
/// thing that can be done with it is to deliver it to an actor of type `A`.
pub(crate) trait MailContent<A: Actor>: Send {
    /// Whether the message is still inside.
    spec fn loaded(&self) -> bool;

    /// What delivering the message may do to the actor and the exit flag.
    spec fn effect(&self, before: A, after: A, stop: bool) -> bool;

    /// Hands the message to its handler, if it is still inside, and leaves
    /// the slot empty.
    fn process(&mut self, act: &mut A, ctx: &mut Context<A>)
        requires
            !old(ctx).terminated(),
        ensures
            !final(self).loaded(),
            old(self).loaded() ==> old(self).effect(
                *old(act),
                *final(act),
                final(ctx).terminated(),
            ),
            !old(self).loaded() ==> *final(act) == *old(act) && *final(ctx) == *old(ctx),
    ;
}

/// A message together with the knowledge of its own type, which decides the
/// handler when the envelope is opened.
struct ActorMessage<M: Message + Send> {
    msg: Option<M>,
}

impl<A, M> MailContent<A> for ActorMessage<M> where
    M: Message + Send + 'static,
    A: Actor + Receives<M>,
{
    closed spec fn loaded(&self) -> bool {
        self.msg is Some
    }

    closed spec fn effect(&self, before: A, after: A, stop: bool) -> bool {
        self.msg is Some && A::handled(before, self.msg->0, after, stop)
    }

    fn process(&mut self, act: &mut A, ctx: &mut Context<A>) {
        if let Some(msg) = self.msg.take() {
            act.process(msg, ctx);
        }
    }
}

/// One message for an actor of type `A`, with its type erased. An envelope is
/// made full and is used up by its delivery, so none is delivered twice.
#[verifier::reject_recursive_types(A)]
pub struct Mail<A: Actor> {
    content: Box<dyn MailContent<A>>,
}

impl<A: Actor> Mail<A> {
    #[verifier::type_invariant]
    spec fn full(&self) -> bool {
        self.content.loaded()
    }

    /// The envelope that holds `msg`.
    pub closed spec fn of<M>(msg: M) -> Self where M: Message + Send + 'static, A: Receives<M> {
        Mail { content: Box::new(ActorMessage { msg: Some(msg) }) }
    }

    /// What the delivery of this envelope may do: what the handler of the
    /// message inside may do (see `effect_of`).
    pub closed spec fn effect(&self, before: A, after: A, stop: bool) -> bool {
        self.content.effect(before, after, stop)
    }

    /// The effect of an envelope is that of the handler for its message.
    pub proof fn effect_of<M>(msg: M, before: A, after: A, stop: bool) where
        M: Message + Send + 'static,
        A: Receives<M>,

        ensures
            Self::of(msg).effect(before, after, stop) == A::handled(before, msg, after, stop),
    {
    }

    /// Puts `msg` into an envelope for `A`. That `A` handles messages of this
    /// type is settled here, by the bound, and not looked at again.
    pub fn new<M>(msg: M) -> (mail: Self) where M: Message + Send + 'static, A: Receives<M>
        ensures
            mail == Self::of(msg),
    {
        Mail { content: Box::new(ActorMessage { msg: Some(msg) }) }
    }

    /// Opens the envelope: one call of the handler that was fixed when the
    /// envelope was made.
    pub(crate) fn deliver(self, act: &mut A, ctx: &mut Context<A>)
        requires
            !old(ctx).terminated(),
        ensures
            self.effect(*old(act), *final(act), final(ctx).terminated()),
    {
        proof {
            use_type_invariant(&self);
        }
        let mut content = self.content;
        content.process(act, ctx);
    }
}

} // verus!
