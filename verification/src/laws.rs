//! What holds of mailboxes and run loops whatever is done with them.
use crate::actor::Actor;
use crate::envelope::Mail;
use crate::mailbox::{MailboxState, Received};
use crate::runloop::{Event, Phase, RunState};
use vstd::prelude::*;

verus! {

/// One thing that the holders of a mailbox can do to it while its receiving
/// side is alive.
#[verifier::reject_recursive_types(A)]
pub enum MailboxOp<A: Actor> {
    /// A sender sends this envelope.
    Send(Mail<A>),
    /// The receiving side tries to take an envelope out.
    Recv,
    /// A sender is cloned.
    AddSender,
    /// A sender is dropped.
    DropSender,
}

/// The mailbox after `op`.
pub open spec fn after_op<A: Actor>(m: MailboxState<A>, op: MailboxOp<A>) -> MailboxState<A> {
    match op {
        MailboxOp::Send(mail) => m.send(mail),
        MailboxOp::Recv => m.after_recv(),
        MailboxOp::AddSender => m.add_sender(),
        MailboxOp::DropSender => m.drop_sender(),
    }
}

/// The mailbox after all of `ops`, done one after the other.
pub open spec fn after_ops<A: Actor>(m: MailboxState<A>, ops: Seq<MailboxOp<A>>) -> MailboxState<A>
    decreases ops.len(),
{
    if ops.len() == 0 {
        m
    } else {
        after_op(after_ops(m, ops.drop_last()), ops.last())
    }
}

/// The envelopes that `ops` send, in the order of the sends.
pub open spec fn sent_by<A: Actor>(ops: Seq<MailboxOp<A>>) -> Seq<Mail<A>>
    decreases ops.len(),
{
    if ops.len() == 0 {
        Seq::empty()
    } else {
        match ops.last() {
            MailboxOp::Send(mail) => sent_by(ops.drop_last()).push(mail),
            _ => sent_by(ops.drop_last()),
        }
    }
}

/// The envelopes that the receiving side gets while `ops` are done to `m`, in
/// the order in which it gets them.
pub open spec fn received_by<A: Actor>(m: MailboxState<A>, ops: Seq<MailboxOp<A>>) -> Seq<Mail<A>>
    decreases ops.len(),
{
    if ops.len() == 0 {
        Seq::empty()
    } else {
        let before = received_by(m, ops.drop_last());
        match (ops.last(), after_ops(m, ops.drop_last()).next()) {
            (MailboxOp::Recv, Received::Mail(mail)) => before.push(mail),
            _ => before,
        }
    }
}

/// First in, first out, over all senders: however sends, receives and the
/// cloning and dropping of senders follow each other, what was received and
/// what still waits are together what waited at the start and what was sent
/// since, in the order of the sends. So the envelopes are received in the
/// order in which they were sent, whoever sent them.
pub proof fn law_fifo<A: Actor>(m: MailboxState<A>, ops: Seq<MailboxOp<A>>)
    requires
        m.open,
    ensures
        after_ops(m, ops).open,
        received_by(m, ops) + after_ops(m, ops).pending == m.pending + sent_by(ops),
        received_by(m, ops).is_prefix_of(m.pending + sent_by(ops)),
    decreases ops.len(),
{
    if ops.len() == 0 {
        assert(received_by(m, ops) + after_ops(m, ops).pending =~= m.pending + sent_by(ops));
    } else {
        let head = ops.drop_last();
        law_fifo(m, head);
        let before = after_ops(m, head);
        let got = received_by(m, head);
        match ops.last() {
            MailboxOp::Send(mail) => {
                assert(got + before.pending.push(mail) =~= (got + before.pending).push(mail));
                assert(m.pending + sent_by(head).push(mail) =~= (m.pending + sent_by(head)).push(
                    mail,
                ));
            },
            MailboxOp::Recv => {
                if before.pending.len() > 0 {
                    assert(got.push(before.pending[0]) + before.pending.skip(1) =~= got
                        + before.pending);
                }
            },
            MailboxOp::AddSender => {},
            MailboxOp::DropSender => {},
        }
        assert(received_by(m, ops) + after_ops(m, ops).pending =~= m.pending + sent_by(ops));
    }
    let all = m.pending + sent_by(ops);
    let got = received_by(m, ops);
    assert(got =~= all.subrange(0, got.len() as int));
}

/// The order of a run: `on_entry` is the first thing that is done to an actor
/// and is done once; then come the handler calls, one for each delivered
/// envelope and in the order of the deliveries, of which none but the last
/// has asked to stop; `on_exit` is the last thing, is done once, and is done
/// exactly in the phase `Stopped`.
pub proof fn law_lifecycle_order<A: Actor>(s: RunState<A>)
    requires
        s.wf(),
    ensures
        s.phase == Phase::Created <==> s.trace.len() == 0,
        s.phase == Phase::Running || s.phase == Phase::Stopping ==> s.trace.len() == 1
            + s.handled(),
        s.phase == Phase::Stopped ==> s.trace.len() == 1 + s.handled() + 1,
        s.delivered().len() == s.handled(),
        forall|i: int|
            0 <= i < s.trace.len() ==> ((#[trigger] s.trace[i]).event is Entered <==> i == 0),
        forall|i: int|
            0 <= i < s.trace.len() ==> ((#[trigger] s.trace[i]).event is Exited <==> s.phase
                == Phase::Stopped && i == s.trace.len() - 1),
        forall|k: int|
            0 <= k < s.handled() ==> (#[trigger] s.trace[k + 1]).event == (Event::Handled {
                mail: s.delivered()[k],
                stop: s.terminated && k == s.handled() - 1,
            }),
{
    reveal(RunState::shaped);
    reveal(RunState::delivered);
}

/// Handlers are called in the order of the mailbox: the deliveries of one
/// run are the envelopes that waited, the oldest first and none left out, and
/// each handler call of the run is for the envelope at its place.
pub proof fn law_delivery_order<A: Actor>(
    s: RunState<A>,
    m: MailboxState<A>,
    n: nat,
    e: RunState<A>,
    l: MailboxState<A>,
)
    requires
        s.wf(),
        s.ran(m, n, e, l),
    ensures
        e.handled() == s.handled() + n,
        e.delivered().take(s.handled() as int) == s.delivered(),
        forall|k: int|
            0 <= k < n ==> (#[trigger] e.delivered()[s.handled() + k]) == m.pending[k],
        forall|j: int|
            s.handled() < j <= s.handled() + n ==> (#[trigger] e.trace[j]).event is Handled
                && e.trace[j].event->mail == m.pending[j - 1 - s.handled()],
{
    law_lifecycle_order(s);
    law_lifecycle_order(e);
    let first = s.handled() as int;
    assert(e.delivered().take(first) =~= s.delivered());
    assert forall|j: int| first < j <= first + n implies (#[trigger] e.trace[j]).event is Handled
        && e.trace[j].event->mail == m.pending[j - 1 - first] by {
        let k = j - 1;
        assert(e.trace[k + 1].event is Handled);
        assert(e.delivered()[k] == m.pending.take(n as int)[k - first]);
    }
}

/// An actor that never asks to stop and whose senders are all gone comes to
/// its end: everything that waits is delivered, the loop is `Stopped`, and
/// the trace holds `on_entry` once, before every handler call, and `on_exit`
/// once, behind them all.
pub proof fn law_dropped_senders_stop<A: Actor>(
    s: RunState<A>,
    m: MailboxState<A>,
    n: nat,
    e: RunState<A>,
    l: MailboxState<A>,
)
    requires
        s.wf(),
        s.live(),
        m.open,
        m.senders == 0,
        s.ran(m, n, e, l),
        !e.terminated,
    ensures
        e.phase == Phase::Stopped,
        n == m.pending.len(),
        e.delivered() == s.delivered() + m.pending,
        e.trace.len() == e.handled() + 2,
        e.trace.first().event is Entered,
        e.trace.last().event is Exited,
        forall|i: int| 0 < i < e.trace.len() - 1 ==> (#[trigger] e.trace[i]).event is Handled,
{
    law_lifecycle_order(e);
    assert(m.pending.take(n as int) =~= m.pending);
    assert forall|i: int| 0 < i < e.trace.len() - 1 implies (#[trigger] e.trace[i]).event is Handled by {
        assert(e.trace[(i - 1) + 1].event is Handled);
    }
}

/// A handler that asks to stop is the last to be called: the run ends with
/// its envelope, the loop exits and is `Stopped`, what waited behind that
/// envelope is discarded with the receiving side of the mailbox, and no
/// later delivery reaches the actor.
pub proof fn law_terminate_discards_rest<A: Actor>(
    s: RunState<A>,
    m: MailboxState<A>,
    n: nat,
    e: RunState<A>,
    l: MailboxState<A>,
    mail: Mail<A>,
    after: A,
    stop: bool,
)
    requires
        s.wf(),
        s.live(),
        s.ran(m, n, e, l),
        e.terminated,
    ensures
        e.phase == Phase::Stopped,
        1 <= n <= m.pending.len(),
        e.delivered() == s.delivered() + m.pending.take(n as int),
        e.trace[e.trace.len() - 2].event == (Event::Handled { mail: m.pending[n - 1], stop: true }),
        e.trace.last().event is Exited,
        l.pending.len() == 0,
        !l.open,
        e.deliver(mail, after, stop) == e,
{
    law_lifecycle_order(s);
    law_lifecycle_order(e);
    law_delivery_order(s, m, n, e, l);
    let last = e.handled() - 1;
    assert(e.trace[last + 1].event == (Event::Handled { mail: e.delivered()[last], stop: true }));
    assert(e.delivered()[s.handled() + (n - 1)] == m.pending[n - 1]);
}

/// The order of a whole life: a new loop that runs on a mailbox until a
/// handler asks to stop has called `on_entry`, then the handlers for the
/// envelopes in the order in which they waited, the last of them the one
/// that asked to stop, then `on_exit`, and nothing else.
pub proof fn law_round_trip<A: Actor>(
    actor: A,
    m: MailboxState<A>,
    n: nat,
    e: RunState<A>,
    l: MailboxState<A>,
)
    requires
        RunState::fresh(actor).ran(m, n, e, l),
        e.terminated,
    ensures
        e.trace.len() == n + 2,
        e.trace[0].event is Entered,
        forall|k: int|
            0 <= k < n ==> (#[trigger] e.trace[k + 1]).event == (Event::Handled {
                mail: m.pending[k],
                stop: k == n - 1,
            }),
        e.trace[n as int + 1].event is Exited,
{
    let s = RunState::fresh(actor);
    assert(s.wf()) by {
        reveal(RunState::shaped);
        reveal(RunState::coherent);
    }
    law_lifecycle_order(s);
    law_lifecycle_order(e);
    law_delivery_order(s, m, n, e, l);
    assert forall|k: int| 0 <= k < n implies (#[trigger] e.trace[k + 1]).event == (Event::Handled {
        mail: m.pending[k],
        stop: k == n - 1,
    }) by {
        assert(e.delivered()[s.handled() + k] == m.pending[k]);
    }
}

/// Sending to an actor that has stopped fails: a run that ends `Stopped`
/// leaves the mailbox closed, and a closed mailbox refuses every envelope
/// and stays as it is.
pub proof fn law_send_after_stop<A: Actor>(
    s: RunState<A>,
    m: MailboxState<A>,
    n: nat,
    e: RunState<A>,
    l: MailboxState<A>,
    mail: Mail<A>,
)
    requires
        s.wf(),
        s.ran(m, n, e, l),
        e.phase == Phase::Stopped,
    ensures
        !l.open,
        l.send(mail) == l,
        l.pending.len() == 0,
{
}

/// Once a handler has asked to stop, nothing is delivered any more: the loop
/// is past `Running`, every further delivery leaves it as it is, and so do
/// the other steps but the one call of `on_exit`, which delivers nothing.
pub proof fn law_stop_is_final<A: Actor>(s: RunState<A>, mail: Mail<A>, after: A, stop: bool)
    requires
        s.wf(),
        s.terminated,
    ensures
        s.phase == Phase::Stopping || s.phase == Phase::Stopped,
        s.deliver(mail, after, stop) == s,
        s.begin(after) == s,
        s.disconnect() == s,
        s.finish(after).delivered() == s.delivered(),
        s.finish(after).terminated,
{
    reveal(RunState::delivered);
    assert(s.finish(after).delivered() =~= s.delivered());
}

/// A mailbox whose receiving side is gone takes nothing: what waited is
/// discarded, every send is refused and changes nothing, and nothing is
/// received from it.
pub proof fn law_closed_mailbox_refuses<A: Actor>(m: MailboxState<A>, mail: Mail<A>)
    ensures
        !m.close().open,
        m.close().pending.len() == 0,
        m.close().send(mail) == m.close(),
        m.close().next() is Disconnected,
        m.close().close() == m.close(),
{
}

/// A mailbox is cut off, so that its run loop stops once everything is
/// delivered, when the last sender is dropped, and stays open for as long
/// as one sender is left.
pub proof fn law_open_while_sender_lives<A: Actor>(m: MailboxState<A>)
    requires
        m.open,
    ensures
        !m.add_sender().cut_off(),
        m.senders >= 2 ==> !m.drop_sender().cut_off(),
        m.senders <= 1 ==> m.drop_sender().cut_off(),
        m.drained().next() is Disconnected <==> m.cut_off(),
        m.drained().next() is Empty <==> !m.cut_off(),
{
}

} // verus!
