use pelakon::{Actor, Context, Mailbox, Message, Phase, Received, Receives, RunLoop, SendFailed};

struct Note(u32);

impl Message for Note {}

struct Keeper {
    seen: Vec<u32>,
}

impl Actor for Keeper {}

impl Receives<Note> for Keeper {
    fn process(&mut self, msg: Note, _ctx: &mut Context<Self>) {
        self.seen.push(msg.0);
    }
}

#[test]
fn a_new_mailbox_is_open_and_empty() {
    let mailbox: Mailbox<Keeper> = Mailbox::new();
    assert_eq!(mailbox.len(), 0);
    assert_eq!(mailbox.senders(), 1);
    assert!(mailbox.is_open());
}

#[test]
fn recv_takes_the_oldest_first() {
    let mut mailbox: Mailbox<Keeper> = Mailbox::new();
    for i in [7, 3, 9] {
        assert_eq!(mailbox.send(Note(i)), Ok(()));
    }
    assert_eq!(mailbox.len(), 3);
    let mut lp = RunLoop::new(Keeper { seen: Vec::new() });
    lp.begin();
    for left in [2usize, 1, 0] {
        let found = mailbox.recv();
        assert!(matches!(found, Received::Mail(_)));
        assert_eq!(mailbox.len(), left);
        lp.step(found);
    }
    assert_eq!(lp.actor().seen, vec![7, 3, 9]);
    assert!(matches!(mailbox.recv(), Received::Empty));
}

#[test]
fn an_empty_mailbox_tells_waiting_from_the_end() {
    let mut mailbox: Mailbox<Keeper> = Mailbox::new();
    assert!(matches!(mailbox.recv(), Received::Empty));
    mailbox.add_sender();
    mailbox.drop_sender();
    assert!(matches!(mailbox.recv(), Received::Empty));
    mailbox.drop_sender();
    assert!(matches!(mailbox.recv(), Received::Disconnected));
    assert_eq!(mailbox.len(), 0);
}

#[test]
fn mail_sent_before_the_last_sender_left_still_arrives() {
    let mut mailbox: Mailbox<Keeper> = Mailbox::new();
    assert_eq!(mailbox.send(Note(1)), Ok(()));
    mailbox.drop_sender();
    assert!(matches!(mailbox.recv(), Received::Mail(_)));
    assert!(matches!(mailbox.recv(), Received::Disconnected));
}

#[test]
fn senders_are_counted() {
    let mut mailbox: Mailbox<Keeper> = Mailbox::new();
    mailbox.add_sender();
    mailbox.add_sender();
    assert_eq!(mailbox.senders(), 3);
    mailbox.drop_sender();
    assert_eq!(mailbox.senders(), 2);
    mailbox.drop_sender();
    mailbox.drop_sender();
    assert_eq!(mailbox.senders(), 0);
    mailbox.drop_sender();
    assert_eq!(mailbox.senders(), 0);
    assert!(mailbox.is_open());
}

#[test]
fn close_discards_and_refuses() {
    let mut mailbox: Mailbox<Keeper> = Mailbox::new();
    assert_eq!(mailbox.send(Note(1)), Ok(()));
    assert_eq!(mailbox.send(Note(2)), Ok(()));
    mailbox.close();
    assert!(!mailbox.is_open());
    assert_eq!(mailbox.len(), 0);
    assert_eq!(mailbox.senders(), 1);
    assert_eq!(mailbox.send(Note(3)), Err(SendFailed));
    assert_eq!(mailbox.len(), 0);
    assert!(matches!(mailbox.recv(), Received::Disconnected));
    mailbox.close();
    assert!(!mailbox.is_open());
}

#[test]
fn a_closed_mailbox_stops_its_loop() {
    let mut mailbox: Mailbox<Keeper> = Mailbox::new();
    assert_eq!(mailbox.send(Note(1)), Ok(()));
    mailbox.close();
    let mut lp = RunLoop::new(Keeper { seen: Vec::new() });
    assert_eq!(lp.run(&mut mailbox), 0);
    assert_eq!(lp.phase(), Phase::Stopped);
    assert!(lp.actor().seen.is_empty());
}

#[test]
fn sends_between_receives_keep_their_order() {
    let mut mailbox: Mailbox<Keeper> = Mailbox::new();
    let mut lp = RunLoop::new(Keeper { seen: Vec::new() });
    lp.begin();
    assert_eq!(mailbox.send(Note(1)), Ok(()));
    assert_eq!(mailbox.send(Note(2)), Ok(()));
    lp.step(mailbox.recv());
    mailbox.add_sender();
    assert_eq!(mailbox.send(Note(3)), Ok(()));
    lp.step(mailbox.recv());
    mailbox.drop_sender();
    assert_eq!(mailbox.send(Note(4)), Ok(()));
    lp.step(mailbox.recv());
    lp.step(mailbox.recv());
    lp.step(mailbox.recv());
    assert_eq!(lp.actor().seen, vec![1, 2, 3, 4]);
    assert_eq!(lp.phase(), Phase::Running);
    assert_eq!(mailbox.len(), 0);
}
