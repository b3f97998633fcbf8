//! The mailbox: one unbounded queue for all the senders of an actor.
use crate::actor::{Actor, Message, Receives};
use crate::envelope::Mail;
use crate::error::SendFailed;
use std::collections::VecDeque;
use vstd::prelude::*;

verus! {

/// What a mailbox is, as a mathematical value.
#[verifier::ext_equal]
#[verifier::reject_recursive_types(A)]
pub struct MailboxState<A: Actor> {
    /// The envelopes that wait, the one that went in first at index 0.
    pub pending: Seq<Mail<A>>,
    /// How many sender handles are alive.
    pub senders: nat,
    /// Whether the receiving side is alive.
    pub open: bool,
}

/// What an attempt to take an envelope out finds.
#[verifier::reject_recursive_types(A)]
pub enum Received<A: Actor> {
    /// The envelope that has waited longest.
    Mail(Mail<A>),
    /// Nothing waits, but a sender is alive and may still send.
    Empty,
    /// Nothing waits and nothing can arrive any more.
    Disconnected,
}

impl<A: Actor> MailboxState<A> {
    /// A new mailbox: nothing waits, one sender, the receiving side alive.
    pub open spec fn fresh() -> Self {
        MailboxState { pending: Seq::empty(), senders: 1, open: true }
    }

    /// After an attempt to send `mail`: it waits behind all that waited
    /// before, unless the receiving side is gone, which leaves everything as
    /// it was.
    pub open spec fn send(self, mail: Mail<A>) -> Self {
        if self.open {
            MailboxState { pending: self.pending.push(mail), ..self }
        } else {
            self
        }
    }

    /// What an attempt to receive finds.
    pub open spec fn next(self) -> Received<A> {
        if !self.open {
            Received::Disconnected
        } else if self.pending.len() > 0 {
            Received::Mail(self.pending[0])
        } else if self.senders > 0 {
            Received::Empty
        } else {
            Received::Disconnected
        }
    }

    /// After an attempt to receive: the first envelope is gone, if one was
    /// found.
    pub open spec fn after_recv(self) -> Self {
        if self.next() is Mail {
            MailboxState { pending: self.pending.skip(1), ..self }
        } else {
            self
        }
    }

    /// After everything that waits was taken out.
    pub open spec fn drained(self) -> Self {
        MailboxState { pending: Seq::empty(), ..self }
    }

    /// Whether nothing can arrive any more, once what waits is taken out.
    pub open spec fn cut_off(self) -> bool {
        !self.open || self.senders == 0
    }

    /// After a sender was cloned.
    pub open spec fn add_sender(self) -> Self {
        MailboxState { senders: self.senders + 1, ..self }
    }

    /// After a sender was dropped.
    pub open spec fn drop_sender(self) -> Self {
        if self.senders > 0 {
            MailboxState { senders: (self.senders - 1) as nat, ..self }
        } else {
            self
        }
    }

    /// After the receiving side was dropped: what waited is discarded.
    pub open spec fn close(self) -> Self {
        MailboxState { pending: Seq::empty(), open: false, ..self }
    }
}

/// An unbounded first-in-first-out queue of envelopes for one actor, with the
/// count of its senders and the state of its receiving side.
#[verifier::reject_recursive_types(A)]
pub struct Mailbox<A: Actor> {
    queue: VecDeque<Mail<A>>,
    senders: usize,
    open: bool,
}

impl<A: Actor> View for Mailbox<A> {
    type V = MailboxState<A>;

    closed spec fn view(&self) -> MailboxState<A> {
        MailboxState { pending: self.queue@, senders: self.senders as nat, open: self.open }
    }
}

impl<A: Actor> Mailbox<A> {
    /// An empty mailbox with one sender and its receiving side alive.
    pub fn new() -> (mailbox: Self)
        ensures
            mailbox@ == MailboxState::<A>::fresh(),
    {
        Mailbox { queue: VecDeque::new(), senders: 1, open: true }
    }

    /// Puts `msg` into an envelope and appends it. Returns at once, whatever
    /// waits already. Fails, and drops `msg`, exactly when the receiving side
    /// is gone.
    pub fn send<M>(&mut self, msg: M) -> (r: Result<(), SendFailed>) where
        M: Message + Send + 'static,
        A: Receives<M>,

        ensures
            r is Ok <==> old(self)@.open,
            final(self)@ == old(self)@.send(Mail::of(msg)),
    {
        if self.open {
            self.queue.push_back(Mail::new(msg));
            Ok(())
        } else {
            Err(SendFailed)
        }
    }

    /// Takes out the envelope that has waited longest, if there is one, and
    /// says why not if there is none. Never waits.
    pub fn recv(&mut self) -> (r: Received<A>)
        ensures
            r == old(self)@.next(),
            final(self)@ == old(self)@.after_recv(),
    {
        if !self.open {
            return Received::Disconnected;
        }
        match self.queue.pop_front() {
            Some(mail) => Received::Mail(mail),
            None => {
                if self.senders > 0 {
                    Received::Empty
                } else {
                    Received::Disconnected
                }
            },
        }
    }

    /// Counts one more sender.
    pub fn add_sender(&mut self)
        requires
            old(self)@.senders < usize::MAX,
        ensures
            final(self)@ == old(self)@.add_sender(),
    {
        self.senders = self.senders + 1;
    }

    /// Counts one sender less, if there is one.
    pub fn drop_sender(&mut self)
        ensures
            final(self)@ == old(self)@.drop_sender(),
    {
        if self.senders > 0 {
            self.senders = self.senders - 1;
        }
    }

    /// Gives up the receiving side. What waits is discarded, and every later
    /// send fails.
    pub fn close(&mut self)
        ensures
            final(self)@ == old(self)@.close(),
    {
        self.queue.clear();
        self.open = false;
    }

    /// How many envelopes wait.
    pub fn len(&self) -> (n: usize)
        ensures
            n == self@.pending.len(),
    {
        self.queue.len()
    }

    /// How many senders are alive.
    pub fn senders(&self) -> (n: usize)
        ensures
            n == self@.senders,
    {
        self.senders
    }

    /// Whether the receiving side is alive.
    pub fn is_open(&self) -> (open: bool)
        ensures
            open == self@.open,
    {
        self.open
    }
}

} // verus!
