use concurrency::channel::{Channel, Received};

fn message(r: Received<String>) -> String {
    match r {
        Received::Message(m) => m,
        Received::Empty => panic!("expected a message, the channel is empty"),
        Received::Disconnected => panic!("expected a message, the channel is closed"),
    }
}

#[test]
fn one_sender_four_words_in_order() {
    let (mut ch, tx) = Channel::new();
    for w in ["hi", "from", "the", "thread"] {
        assert!(ch.send(tx, String::from(w)).is_ok());
    }
    let got = ch.drain();
    assert_eq!(got, vec!["hi", "from", "the", "thread"]);
    assert_eq!(ch.pending_len(), 0);
}

#[test]
fn single_sender_stream_ends_after_last_message() {
    let (mut ch, tx) = Channel::new();
    for i in 0..5u32 {
        assert!(ch.send(tx, i).is_ok());
    }
    ch.drop_sender(tx);
    let mut seen = Vec::new();
    loop {
        match ch.try_recv() {
            Received::Message(m) => seen.push(m),
            Received::Empty => panic!("no sender is alive, the stream must end"),
            Received::Disconnected => break,
        }
    }
    assert_eq!(seen, vec![0, 1, 2, 3, 4]);
}

#[test]
fn two_senders_keep_their_own_order() {
    let (mut ch, a) = Channel::new();
    let b = ch.add_sender(a);
    assert_eq!(b, 1);
    let plan = [(a, "hi"), (b, "more"), (b, "messages"), (a, "from"), (a, "the"), (b, "for"), (a, "thread"), (b, "you")];
    for (who, w) in plan {
        assert!(ch.send(who, String::from(w)).is_ok());
    }
    let got = ch.drain();
    let from_a: Vec<&String> = got.iter().filter(|m| ["hi", "from", "the", "thread"].contains(&m.as_str())).collect();
    let from_b: Vec<&String> = got.iter().filter(|m| ["more", "messages", "for", "you"].contains(&m.as_str())).collect();
    assert_eq!(from_a, vec!["hi", "from", "the", "thread"]);
    assert_eq!(from_b, vec!["more", "messages", "for", "you"]);
    assert_eq!(got.len(), 8);
}

#[test]
fn empty_while_a_sender_lives_then_disconnected() {
    let (mut ch, a) = Channel::<String>::new();
    let b = ch.add_sender(a);
    assert!(matches!(ch.try_recv(), Received::Empty));
    ch.drop_sender(a);
    assert!(matches!(ch.try_recv(), Received::Empty));
    assert!(ch.send(b, String::from("last")).is_ok());
    ch.drop_sender(b);
    assert!(!ch.has_live_sender());
    assert_eq!(message(ch.try_recv()), "last");
    assert!(matches!(ch.try_recv(), Received::Disconnected));
    assert!(matches!(ch.try_recv(), Received::Disconnected));
}

#[test]
fn send_fails_without_receiver_and_returns_message() {
    let (mut ch, tx) = Channel::new();
    ch.drop_receiver();
    match ch.send(tx, String::from("lost")) {
        Ok(()) => panic!("send must fail once the receiver is gone"),
        Err(m) => assert_eq!(m, "lost"),
    }
    assert_eq!(ch.pending_len(), 0);
}

#[test]
fn liveness_of_senders() {
    let (mut ch, a) = Channel::<u8>::new();
    assert!(ch.is_live(a));
    assert!(!ch.is_live(1));
    let b = ch.add_sender(a);
    ch.drop_sender(a);
    assert!(!ch.is_live(a));
    assert!(ch.is_live(b));
    assert!(ch.has_live_sender());
}
