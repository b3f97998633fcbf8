//! The run loop of one actor, as a state machine that is advanced by calls.
use crate::actor::Actor;
use crate::context::Context;
use crate::envelope::Mail;
use crate::mailbox::{Mailbox, MailboxState, Received};
use vstd::prelude::*;

verus! {

/// Where a run loop stands.
#[derive(Clone, Copy, PartialEq, Eq, Debug, Structural)]
pub enum Phase {
    /// Made, `on_entry` not run yet.
    Created,
    /// `on_entry` has run; envelopes are delivered as they come.
    Running,
    /// The decision to stop has fallen; `on_exit` not run yet.
    Stopping,
    /// `on_exit` has run. Nothing happens any more.
    Stopped,
}

/// One thing that a run loop did to its actor.
#[verifier::reject_recursive_types(A)]
pub enum Event<A: Actor> {
    /// It called `on_entry`.
    Entered,
    /// It delivered `mail`; `stop` tells whether the exit flag was set when
    /// the handler returned.
    Handled { mail: Mail<A>, stop: bool },
    /// It called `on_exit`.
    Exited,
}

/// An event and the actor as the event left it.
#[verifier::reject_recursive_types(A)]
pub struct Step<A: Actor> {
    pub event: Event<A>,
    pub after: A,
}

/// What a run loop is, as a mathematical value.
#[verifier::ext_equal]
#[verifier::reject_recursive_types(A)]
pub struct RunState<A: Actor> {
    pub phase: Phase,
    /// The actor as it was handed to the loop.
    pub origin: A,
    /// The actor as it is now.
    pub actor: A,
    /// All that was done to the actor, in the order in which it was done.
    pub trace: Seq<Step<A>>,
    /// The exit flag of the context.
    pub terminated: bool,
}

impl<A: Actor> RunState<A> {
    /// A run loop that has done nothing yet.
    pub open spec fn fresh(actor: A) -> Self {
        RunState {
            phase: Phase::Created,
            origin: actor,
            actor,
            trace: Seq::empty(),
            terminated: false,
        }
    }

    /// `Created` to `Running`, by a call of `on_entry` that left the actor as
    /// `after`. In any other phase nothing happens.
    pub open spec fn begin(self, after: A) -> Self {
        if self.phase == Phase::Created {
            RunState {
                phase: Phase::Running,
                actor: after,
                trace: self.trace.push(Step { event: Event::Entered, after }),
                ..self
            }
        } else {
            self
        }
    }

    /// The delivery of `mail` while `Running`, by a handler call that left
    /// the actor as `after` and the exit flag as `stop`: on to `Stopping` if
    /// the flag is set. In any other phase nothing happens, and the envelope
    /// is lost undelivered.
    pub open spec fn deliver(self, mail: Mail<A>, after: A, stop: bool) -> Self {
        if self.phase == Phase::Running {
            RunState {
                phase: if stop {
                    Phase::Stopping
                } else {
                    Phase::Running
                },
                actor: after,
                trace: self.trace.push(Step { event: Event::Handled { mail, stop }, after }),
                terminated: stop,
                ..self
            }
        } else {
            self
        }
    }

    /// `Running` to `Stopping`, because nothing waits in the mailbox and
    /// nothing can arrive. In any other phase nothing happens.
    pub open spec fn disconnect(self) -> Self {
        if self.phase == Phase::Running {
            RunState { phase: Phase::Stopping, ..self }
        } else {
            self
        }
    }

    /// One turn of the loop on what an attempt to receive has found: an
    /// envelope is delivered, an empty mailbox changes nothing, and one from
    /// which nothing can come any more ends the `Running` phase.
    pub open spec fn step(self, found: Received<A>, after: A, stop: bool) -> Self {
        match found {
            Received::Mail(mail) => self.deliver(mail, after, stop),
            Received::Empty => self,
            Received::Disconnected => self.disconnect(),
        }
    }

    /// `Stopping` to `Stopped`, by a call of `on_exit` that left the actor as
    /// `after`. In any other phase nothing happens.
    pub open spec fn finish(self, after: A) -> Self {
        if self.phase == Phase::Stopping {
            RunState {
                phase: Phase::Stopped,
                actor: after,
                trace: self.trace.push(Step { event: Event::Exited, after }),
                ..self
            }
        } else {
            self
        }
    }

    /// Whether the loop still takes envelopes, now or after `on_entry`.
    pub open spec fn live(self) -> bool {
        self.phase == Phase::Created || self.phase == Phase::Running
    }

    /// How many handler calls the trace holds.
    pub open spec fn handled(self) -> nat {
        let n = self.trace.len();
        match self.phase {
            Phase::Created => 0,
            Phase::Running | Phase::Stopping => if n >= 1 {
                (n - 1) as nat
            } else {
                0
            },
            Phase::Stopped => if n >= 2 {
                (n - 2) as nat
            } else {
                0
            },
        }
    }

    /// The envelopes that were delivered, in the order of their delivery.
    #[verifier::opaque]
    pub open spec fn delivered(self) -> Seq<Mail<A>> {
        Seq::new(self.handled(), |i: int| self.trace[i + 1].event->mail)
    }

    /// The trace has the form that the phase allows: nothing; then
    /// `on_entry`; then handler calls, of which only the last may have asked
    /// to stop; then `on_exit`. The exit flag is set exactly if the last
    /// handler call set it.
    #[verifier::opaque]
    pub open spec fn shaped(self) -> bool {
        let n = self.trace.len() as int;
        match self.phase {
            Phase::Created => n == 0 && !self.terminated,
            Phase::Running => {
                &&& n >= 1
                &&& self.trace[0].event is Entered
                &&& forall|i: int| 1 <= i < n ==> (#[trigger] self.trace[i]).event is Handled
                &&& forall|i: int| 1 <= i < n ==> !(#[trigger] self.trace[i]).event->stop
                &&& !self.terminated
            },
            Phase::Stopping => {
                &&& n >= 1
                &&& self.trace[0].event is Entered
                &&& forall|i: int| 1 <= i < n ==> (#[trigger] self.trace[i]).event is Handled
                &&& forall|i: int| 1 <= i < n - 1 ==> !(#[trigger] self.trace[i]).event->stop
                &&& self.terminated <==> n >= 2 && self.trace[n - 1].event->stop
            },
            Phase::Stopped => {
                &&& n >= 2
                &&& self.trace[0].event is Entered
                &&& self.trace[n - 1].event is Exited
                &&& forall|i: int| 1 <= i < n - 1 ==> (#[trigger] self.trace[i]).event is Handled
                &&& forall|i: int| 1 <= i < n - 2 ==> !(#[trigger] self.trace[i]).event->stop
                &&& self.terminated <==> n >= 3 && self.trace[n - 2].event->stop
            },
        }
    }

    /// The actor as step `i` of the trace found it.
    pub open spec fn before(self, i: int) -> A {
        if i <= 0 {
            self.origin
        } else {
            self.trace[i - 1].after
        }
    }

    /// Whether `step` may lead from the actor `before` to the one it left:
    /// a handler call does what its envelope allows, a hook what the actor
    /// allows it, or nothing.
    pub open spec fn allowed(before: A, step: Step<A>) -> bool {
        match step.event {
            Event::Entered => step.after == before || A::entered(before, step.after),
            Event::Handled { mail, stop } => mail.effect(before, step.after, stop),
            Event::Exited => step.after == before || A::exited(before, step.after),
        }
    }

    /// Every step of the trace was allowed on the actor as the step before
    /// had left it, the first on the actor as it was handed over.
    #[verifier::opaque]
    pub open spec fn coherent(self) -> bool {
        forall|i: int|
            0 <= i < self.trace.len() ==> Self::allowed(self.before(i), #[trigger] self.trace[i])
    }

    /// What running the loop on a mailbox, as far as that goes without
    /// waiting, makes of both: from `self` and the mailbox `waiting` to `end`
    /// and the mailbox `left`, with `n` deliveries.
    ///
    /// The loop enters if it has not yet. While it is `Running` it delivers
    /// the envelopes that wait, the oldest first, and stops at the first
    /// whose handler asks for it. It ends `Running`, with the mailbox empty,
    /// exactly if no handler asked to stop and a sender may still send; else
    /// it exits and ends `Stopped`, and the mailbox is closed and has lost
    /// what still waited. A loop that was past `Running` delivers nothing.
    pub open spec fn ran(
        self,
        waiting: MailboxState<A>,
        n: nat,
        end: Self,
        left: MailboxState<A>,
    ) -> bool {
        &&& end.wf()
        &&& end.origin == self.origin
        &&& self.trace.is_prefix_of(end.trace)
        &&& n <= waiting.pending.len()
        &&& end.delivered() == self.delivered() + waiting.pending.take(n as int)
        &&& end.phase == Phase::Running || end.phase == Phase::Stopped
        &&& end.phase == Phase::Stopped <==> !self.live() || end.terminated || waiting.cut_off()
        &&& !self.live() ==> end == self.finish(end.actor)
        &&& !self.live() || !waiting.open ==> n == 0
        &&& self.live() && waiting.open && !end.terminated ==> n == waiting.pending.len()
        &&& self.live() && end.terminated ==> n >= 1
        &&& end.phase == Phase::Running ==> left == waiting.drained()
        &&& end.phase == Phase::Stopped ==> left == waiting.close()
    }

    /// The trace tells how the actor came to be what it is.
    pub open spec fn wf(self) -> bool {
        &&& self.shaped()
        &&& self.coherent()
        &&& self.actor == self.before(self.trace.len() as int)
        &&& self.live() ==> !self.terminated
    }

    /// `begin` keeps a state well-formed and delivers nothing.
    pub proof fn begin_preserves(self, after: A)
        requires
            self.wf(),
            self.phase == Phase::Created ==> after == self.actor || A::entered(self.actor, after),
        ensures
            self.begin(after).wf(),
            self.begin(after).delivered() == self.delivered(),
    {
        reveal(RunState::shaped);
        reveal(RunState::coherent);
        reveal(RunState::delivered);
        assert(self.begin(after).delivered() =~= self.delivered());
    }

    /// A delivery keeps a state well-formed if the handler did what the
    /// envelope allows, and adds the envelope behind those delivered before.
    pub proof fn deliver_preserves(self, mail: Mail<A>, after: A, stop: bool)
        requires
            self.wf(),
            self.phase == Phase::Running ==> mail.effect(self.actor, after, stop),
        ensures
            self.deliver(mail, after, stop).wf(),
            self.phase == Phase::Running ==> self.deliver(mail, after, stop).delivered()
                == self.delivered().push(mail),
            self.phase != Phase::Running ==> self.deliver(mail, after, stop) == self,
    {
        reveal(RunState::shaped);
        reveal(RunState::coherent);
        reveal(RunState::delivered);
        if self.phase == Phase::Running {
            let next = self.deliver(mail, after, stop);
            assert(next.delivered() =~= self.delivered().push(mail));
        }
    }

    /// `disconnect` keeps a state well-formed and delivers nothing.
    pub proof fn disconnect_preserves(self)
        requires
            self.wf(),
        ensures
            self.disconnect().wf(),
            self.disconnect().delivered() == self.delivered(),
    {
        reveal(RunState::shaped);
        reveal(RunState::coherent);
        reveal(RunState::delivered);
        assert(self.disconnect().delivered() =~= self.delivered());
    }

    /// `finish` keeps a state well-formed and delivers nothing.
    pub proof fn finish_preserves(self, after: A)
        requires
            self.wf(),
            self.phase == Phase::Stopping ==> after == self.actor || A::exited(self.actor, after),
        ensures
            self.finish(after).wf(),
            self.finish(after).delivered() == self.delivered(),
    {
        reveal(RunState::shaped);
        reveal(RunState::coherent);
        reveal(RunState::delivered);
        assert(self.finish(after).delivered() =~= self.delivered());
    }
}

/// The run loop of one actor: the actor, its context and the record of what
/// was done to it.
#[verifier::reject_recursive_types(A)]
pub struct RunLoop<A: Actor> {
    actor: A,
    ctx: Context<A>,
    phase: Phase,
    origin: Ghost<A>,
    trace: Ghost<Seq<Step<A>>>,
}

impl<A: Actor> View for RunLoop<A> {
    type V = RunState<A>;

    closed spec fn view(&self) -> RunState<A> {
        RunState {
            phase: self.phase,
            origin: self.origin@,
            actor: self.actor,
            trace: self.trace@,
            terminated: self.ctx.terminated(),
        }
    }
}

impl<A: Actor> RunLoop<A> {
    /// Takes the actor over and makes a context for it. Nothing runs yet.
    pub fn new(actor: A) -> (lp: Self)
        ensures
            lp@ == RunState::fresh(actor),
            lp@.wf(),
    {
        proof {
            reveal(RunState::shaped);
            reveal(RunState::coherent);
        }
        RunLoop {
            origin: Ghost(actor),
            actor,
            ctx: Context::new(),
            phase: Phase::Created,
            trace: Ghost(Seq::empty()),
        }
    }

    /// Where the loop stands.
    pub fn phase(&self) -> (phase: Phase)
        ensures
            phase == self@.phase,
    {
        self.phase
    }

    /// The actor as it is now.
    pub fn actor(&self) -> (actor: &A)
        ensures
            *actor == self@.actor,
    {
        &self.actor
    }

    /// Whether a handler has asked to stop.
    pub fn is_terminated(&self) -> (set: bool)
        ensures
            set == self@.terminated,
    {
        self.ctx.is_terminated()
    }

    /// Gives the actor back and ends the loop, whatever its phase.
    pub fn into_actor(self) -> (actor: A)
        ensures
            actor == self@.actor,
    {
        self.actor
    }

    /// Calls `on_entry` if the loop is `Created`, and is then `Running`.
    pub fn begin(&mut self)
        requires
            old(self)@.wf(),
        ensures
            final(self)@ == old(self)@.begin(final(self)@.actor),
            old(self)@.phase == Phase::Created ==> final(self)@.actor == old(self)@.actor
                || A::entered(old(self)@.actor, final(self)@.actor),
            final(self)@.wf(),
    {
        if self.phase == Phase::Created {
            self.actor.on_entry();
            self.phase = Phase::Running;
            proof {
                self.trace@ = self.trace@.push(Step { event: Event::Entered, after: self.actor });
                old(self)@.begin_preserves(self.actor);
            }
        }
    }

    /// Delivers `mail` if the loop is `Running`: one handler call, after
    /// which the loop is `Stopping` if the handler asked for it. In any other
    /// phase the envelope is dropped undelivered.
    pub fn deliver(&mut self, mail: Mail<A>)
        requires
            old(self)@.wf(),
        ensures
            final(self)@ == old(self)@.deliver(mail, final(self)@.actor, final(self)@.terminated),
            old(self)@.phase == Phase::Running ==> mail.effect(
                old(self)@.actor,
                final(self)@.actor,
                final(self)@.terminated,
            ),
            final(self)@.wf(),
    {
        if self.phase == Phase::Running {
            let ghost sent = mail;
            mail.deliver(&mut self.actor, &mut self.ctx);
            if self.ctx.is_terminated() {
                self.phase = Phase::Stopping;
            }
            proof {
                let stop = self.ctx.terminated();
                self.trace@ = self.trace@.push(
                    Step { event: Event::Handled { mail: sent, stop }, after: self.actor },
                );
                old(self)@.deliver_preserves(sent, self.actor, stop);
            }
        }
    }

    /// Tells a `Running` loop that its mailbox is empty for good. It is then
    /// `Stopping`.
    pub fn disconnect(&mut self)
        requires
            old(self)@.wf(),
        ensures
            final(self)@ == old(self)@.disconnect(),
            final(self)@.wf(),
    {
        if self.phase == Phase::Running {
            self.phase = Phase::Stopping;
            proof {
                old(self)@.disconnect_preserves();
            }
        }
    }

    /// One turn of the loop on what an attempt to receive has found: delivers
    /// an envelope, does nothing where the mailbox was only empty, and goes
    /// on to `Stopping` where nothing can come any more.
    pub fn step(&mut self, found: Received<A>)
        requires
            old(self)@.wf(),
        ensures
            final(self)@ == old(self)@.step(found, final(self)@.actor, final(self)@.terminated),
            old(self)@.phase == Phase::Running && found is Mail ==> found->0.effect(
                old(self)@.actor,
                final(self)@.actor,
                final(self)@.terminated,
            ),
            final(self)@.wf(),
    {
        match found {
            Received::Mail(mail) => self.deliver(mail),
            Received::Empty => {},
            Received::Disconnected => self.disconnect(),
        }
    }

    /// Calls `on_exit` if the loop is `Stopping`, and is then `Stopped`.
    pub fn finish(&mut self)
        requires
            old(self)@.wf(),
        ensures
            final(self)@ == old(self)@.finish(final(self)@.actor),
            old(self)@.phase == Phase::Stopping ==> final(self)@.actor == old(self)@.actor
                || A::exited(old(self)@.actor, final(self)@.actor),
            final(self)@.wf(),
    {
        if self.phase == Phase::Stopping {
            self.actor.on_exit();
            self.phase = Phase::Stopped;
            proof {
                self.trace@ = self.trace@.push(Step { event: Event::Exited, after: self.actor });
                old(self)@.finish_preserves(self.actor);
            }
        }
    }

    /// Runs the loop on `mailbox` as far as it goes without waiting: calls
    /// `on_entry` if that is still to do, then delivers what waits, in the
    /// order in which it was sent, until a handler asks to stop or nothing
    /// waits. The loop is then `Running` again if a sender may still send,
    /// and the call can be repeated later. Else `on_exit` is called, the
    /// loop is `Stopped`, and the receiving side of the mailbox is given up,
    /// with all that still waited. Returns the number of deliveries.
    pub fn run(&mut self, mailbox: &mut Mailbox<A>) -> (n: usize)
        requires
            old(self)@.wf(),
        ensures
            old(self)@.ran(old(mailbox)@, n as nat, final(self)@, final(mailbox)@),
    {
        let ghost s0 = self@;
        let ghost m0 = mailbox@;
        let total = mailbox.len();
        self.begin();
        let mut n: usize = 0;
        let mut idle = false;
        proof {
            s0.begin_preserves(self@.actor);
            assert(s0.delivered() + m0.pending.take(0) =~= s0.delivered());
            assert(m0.pending.skip(0) =~= m0.pending);
        }
        while self.phase == Phase::Running && !idle
            invariant
                s0.wf(),
                self@.wf(),
                self@.origin == s0.origin,
                s0.trace.is_prefix_of(self@.trace),
                self@.phase != Phase::Created,
                mailbox@.senders == m0.senders,
                mailbox@.open == m0.open,
                total == m0.pending.len(),
                n <= total,
                m0.open ==> mailbox@.pending == m0.pending.skip(n as int),
                !m0.open ==> n == 0 && mailbox@ == m0,
                self@.delivered() == s0.delivered() + m0.pending.take(n as int),
                !s0.live() ==> self@ == s0,
                s0.live() ==> self@.phase != Phase::Stopped,
                idle ==> self@.phase == Phase::Running && mailbox@.pending.len() == 0 && m0.open
                    && m0.senders > 0,
                self@.phase == Phase::Stopping && s0.live() ==> self@.terminated || m0.cut_off(),
                self@.phase == Phase::Stopping && s0.live() && !self@.terminated && m0.open ==> n
                    == total,
                self@.terminated && s0.live() ==> n >= 1,
            decreases
                    mailbox@.pending.len() + (if self@.phase == Phase::Running && !idle {
                        1nat
                    } else {
                        0nat
                    }),
        {
            let ghost before = self@;
            let ghost waiting = mailbox@;
            let found = mailbox.recv();
            let ghost found_now = found;
            match &found {
                Received::Mail(_) => {
                    n = n + 1;
                },
                Received::Empty => {
                    idle = true;
                },
                Received::Disconnected => {},
            }
            self.step(found);
            proof {
                match found_now {
                    Received::Mail(mail) => {
                        before.deliver_preserves(mail, self@.actor, self@.terminated);
                        assert(m0.pending.skip(n as int) =~= waiting.pending.skip(1));
                        assert(m0.pending.take(n as int) =~= m0.pending.take(n - 1).push(mail));
                        assert(s0.delivered() + m0.pending.take(n as int) =~= (s0.delivered()
                            + m0.pending.take(n - 1)).push(mail));
                    },
                    Received::Empty => {},
                    Received::Disconnected => {
                        before.disconnect_preserves();
                    },
                }
            }
        }
        let ghost parked = self@;
        self.finish();
        proof {
            parked.finish_preserves(self@.actor);
        }
        if self.phase == Phase::Stopped {
            mailbox.close();
        }
        proof {
            assert(self@.phase == Phase::Running ==> mailbox@ == m0.drained());
            assert(self@.phase == Phase::Stopped ==> mailbox@ == m0.close());
        }
        n
    }
}

} // verus!
