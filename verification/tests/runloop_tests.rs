use pelakon::{
    join_outcome, Actor, Context, JoinError, Mail, Mailbox, Message, Phase, Received, Receives,
    RunLoop,
};

struct Tick;

impl Message for Tick {}

struct Halt;

impl Message for Halt {}

#[derive(Default)]
struct Clock {
    ticks: u32,
    entries: u32,
    exits: u32,
}

impl Actor for Clock {
    fn on_entry(&mut self) {
        self.entries += 1;
    }

    fn on_exit(&mut self) {
        self.exits += 1;
    }
}

impl Receives<Tick> for Clock {
    fn process(&mut self, _msg: Tick, _ctx: &mut Context<Self>) {
        self.ticks += 1;
    }
}

impl Receives<Halt> for Clock {
    fn process(&mut self, _msg: Halt, ctx: &mut Context<Self>) {
        ctx.terminate();
    }
}

#[test]
fn a_new_loop_has_done_nothing() {
    let lp = RunLoop::new(Clock::default());
    assert_eq!(lp.phase(), Phase::Created);
    assert!(!lp.is_terminated());
    assert_eq!(lp.actor().entries, 0);
    assert_eq!(lp.actor().ticks, 0);
}

#[test]
fn begin_enters_once() {
    let mut lp = RunLoop::new(Clock::default());
    lp.begin();
    assert_eq!(lp.phase(), Phase::Running);
    assert_eq!(lp.actor().entries, 1);
    lp.begin();
    assert_eq!(lp.phase(), Phase::Running);
    assert_eq!(lp.actor().entries, 1);
}

#[test]
fn deliver_calls_the_handler_of_the_message_type() {
    let mut lp = RunLoop::new(Clock::default());
    lp.begin();
    lp.deliver(Mail::new(Tick));
    lp.deliver(Mail::new(Tick));
    assert_eq!(lp.actor().ticks, 2);
    assert_eq!(lp.phase(), Phase::Running);
    lp.deliver(Mail::new(Halt));
    assert_eq!(lp.phase(), Phase::Stopping);
    assert!(lp.is_terminated());
    assert_eq!(lp.actor().exits, 0);
}

#[test]
fn nothing_is_delivered_before_entry() {
    let mut lp = RunLoop::new(Clock::default());
    lp.deliver(Mail::new(Tick));
    lp.deliver(Mail::new(Halt));
    assert_eq!(lp.phase(), Phase::Created);
    assert_eq!(lp.actor().ticks, 0);
    assert!(!lp.is_terminated());
}

#[test]
fn nothing_is_delivered_once_stopping() {
    let mut lp = RunLoop::new(Clock::default());
    lp.begin();
    lp.deliver(Mail::new(Halt));
    lp.deliver(Mail::new(Tick));
    assert_eq!(lp.actor().ticks, 0);
    assert_eq!(lp.phase(), Phase::Stopping);
    lp.finish();
    assert_eq!(lp.phase(), Phase::Stopped);
    lp.deliver(Mail::new(Tick));
    assert_eq!(lp.actor().ticks, 0);
    assert_eq!(lp.phase(), Phase::Stopped);
}

#[test]
fn finish_exits_once_and_only_when_stopping() {
    let mut lp = RunLoop::new(Clock::default());
    lp.finish();
    assert_eq!(lp.phase(), Phase::Created);
    lp.begin();
    lp.finish();
    assert_eq!(lp.phase(), Phase::Running);
    assert_eq!(lp.actor().exits, 0);
    lp.disconnect();
    assert_eq!(lp.phase(), Phase::Stopping);
    lp.finish();
    lp.finish();
    assert_eq!(lp.phase(), Phase::Stopped);
    assert_eq!(lp.actor().exits, 1);
    assert_eq!(lp.actor().entries, 1);
}

#[test]
fn disconnect_only_ends_a_running_loop() {
    let mut lp = RunLoop::new(Clock::default());
    lp.disconnect();
    assert_eq!(lp.phase(), Phase::Created);
    lp.begin();
    lp.disconnect();
    assert_eq!(lp.phase(), Phase::Stopping);
    assert!(!lp.is_terminated());
    lp.disconnect();
    assert_eq!(lp.phase(), Phase::Stopping);
}

#[test]
fn step_follows_what_was_found() {
    let mut lp = RunLoop::new(Clock::default());
    lp.begin();
    lp.step(Received::Empty);
    assert_eq!(lp.phase(), Phase::Running);
    lp.step(Received::Mail(Mail::new(Tick)));
    assert_eq!(lp.actor().ticks, 1);
    assert_eq!(lp.phase(), Phase::Running);
    lp.step(Received::Disconnected);
    assert_eq!(lp.phase(), Phase::Stopping);
    lp.step(Received::Mail(Mail::new(Tick)));
    assert_eq!(lp.actor().ticks, 1);
}

#[test]
fn run_on_a_stopped_loop_gives_up_the_mailbox() {
    let mut lp = RunLoop::new(Clock::default());
    lp.begin();
    lp.disconnect();
    lp.finish();
    let mut mailbox: Mailbox<Clock> = Mailbox::new();
    assert_eq!(mailbox.send(Tick), Ok(()));
    assert_eq!(lp.run(&mut mailbox), 0);
    assert_eq!(lp.phase(), Phase::Stopped);
    assert!(!mailbox.is_open());
    assert_eq!(mailbox.len(), 0);
    assert_eq!(lp.actor().ticks, 0);
    assert_eq!(lp.actor().exits, 1);
}

#[test]
fn run_finishes_a_stopping_loop() {
    let mut lp = RunLoop::new(Clock::default());
    lp.begin();
    lp.deliver(Mail::new(Halt));
    let mut mailbox: Mailbox<Clock> = Mailbox::new();
    assert_eq!(mailbox.send(Tick), Ok(()));
    assert_eq!(lp.run(&mut mailbox), 0);
    assert_eq!(lp.phase(), Phase::Stopped);
    assert_eq!(lp.actor().exits, 1);
    assert_eq!(lp.actor().ticks, 0);
}

#[test]
fn join_reports_each_outcome() {
    assert_eq!(join_outcome(Some(true)), Ok(()));
    assert_eq!(join_outcome(Some(false)), Err(JoinError::ActorPanicked));
    assert_eq!(join_outcome(None), Err(JoinError::JoinAfterDetached));
}
