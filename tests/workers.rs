use toy_server::chat::{alice_chat, bob_chat, bob_listen, ALICE_REPLY, BOB_GREETING};
use toy_server::cell::{LockPoisoned, SharedCounter};
use toy_server::channel::{Channel, ChannelClosed, Received};
use toy_server::pool::{join_verdict, PoolVerdict};

#[test]
fn ten_workers_count_to_ten() {
    let mut c = SharedCounter::new(0);
    for _ in 0..10 {
        c.increment().unwrap();
    }
    assert_eq!(c.read(), Ok(10));
}

#[test]
fn interleaved_increments_sum_up() {
    let mut c = SharedCounter::new(7);
    let schedule = [0, 2, 1, 1, 0, 2, 2, 0, 1, 0, 1, 2];
    for _w in schedule {
        c.increment().unwrap();
    }
    assert_eq!(c.read(), Ok(7 + 3 * 4));
}

#[test]
fn poisoned_counter_refuses() {
    let mut c = SharedCounter::new(5);
    assert_eq!(c.increment(), Ok(6));
    c.mark_poisoned();
    assert!(c.is_poisoned());
    assert_eq!(c.increment(), Err(LockPoisoned));
    assert_eq!(c.read(), Err(LockPoisoned));
}

#[test]
fn channel_keeps_order_then_ends() {
    let mut ch: Channel<String> = Channel::new();
    for m in ["first", "second", "third"] {
        assert_eq!(ch.send(m.to_string()), Ok(()));
    }
    assert_eq!(ch.pending(), 3);
    assert_eq!(ch.receive(), Received::Message(String::from("first")));
    ch.drop_sender();
    assert_eq!(ch.sender_count(), 0);
    assert_eq!(ch.receive(), Received::Message(String::from("second")));
    assert_eq!(ch.receive(), Received::Message(String::from("third")));
    assert_eq!(ch.receive(), Received::Disconnected);
    assert_eq!(ch.receive(), Received::Disconnected);
}

#[test]
fn channel_waits_while_producers_remain() {
    let mut ch: Channel<u32> = Channel::new();
    ch.add_sender();
    assert_eq!(ch.receive(), Received::Empty);
    ch.drop_sender();
    assert_eq!(ch.receive(), Received::Empty);
    ch.send(9).unwrap();
    ch.drop_sender();
    assert_eq!(ch.receive(), Received::Message(9));
    assert_eq!(ch.receive(), Received::Disconnected);
}

#[test]
fn send_without_consumer_fails() {
    let mut ch: Channel<u32> = Channel::new();
    ch.close_receiver();
    assert!(!ch.is_receiver_open());
    assert_eq!(ch.send(4), Err(ChannelClosed(4)));
    assert_eq!(ch.pending(), 0);
}

#[test]
fn pool_reports_first_failure() {
    assert_eq!(join_verdict(&[true, true, true]), PoolVerdict::AllCompleted);
    assert_eq!(join_verdict(&[]), PoolVerdict::AllCompleted);
    assert_eq!(join_verdict(&[true, false, false]), PoolVerdict::WorkerFailed(1));
}

#[test]
fn alice_and_bob_exchange_greetings() {
    // Bob first: his first attempt finds nothing, Alice gets the greeting and
    // replies, Bob's next attempt gets the reply.
    let mut alice_inbox: Channel<&'static str> = Channel::new();
    let mut bob_inbox: Channel<&'static str> = Channel::new();
    assert_eq!(bob_chat(&mut alice_inbox, &mut bob_inbox), Received::Empty);
    assert_eq!(
        alice_chat(&mut bob_inbox, &mut alice_inbox),
        Received::Message("Hi Alice! It's a me, Bob")
    );
    assert_eq!(bob_listen(&mut bob_inbox), Received::Message("Hey Bob! How you doin'?!"));
    assert_eq!(BOB_GREETING.len() + ALICE_REPLY.len(), 48);
}

#[test]
fn alice_waits_without_replying() {
    // Alice first: she finds nothing and sends nothing; the caller repeats
    // each step while it answers Empty.
    let mut alice_inbox: Channel<&'static str> = Channel::new();
    let mut bob_inbox: Channel<&'static str> = Channel::new();
    assert_eq!(alice_chat(&mut bob_inbox, &mut alice_inbox), Received::Empty);
    assert_eq!(bob_inbox.pending(), 0);
    let mut bob_got = bob_chat(&mut alice_inbox, &mut bob_inbox);
    assert_eq!(bob_got, Received::Empty);
    let mut alice_got = Received::Empty;
    let mut rounds = 0;
    while alice_got == Received::Empty || bob_got == Received::Empty {
        if alice_got == Received::Empty {
            alice_got = alice_chat(&mut bob_inbox, &mut alice_inbox);
        }
        if bob_got == Received::Empty {
            bob_got = bob_listen(&mut bob_inbox);
        }
        rounds += 1;
        assert!(rounds < 3);
    }
    assert_eq!(alice_got, Received::Message(BOB_GREETING));
    assert_eq!(bob_got, Received::Message(ALICE_REPLY));
    assert_eq!(bob_inbox.pending(), 0);
}

#[test]
fn two_producers_keep_their_own_order() {
    let mut ch: Channel<&'static str> = Channel::new();
    ch.add_sender();
    for m in ["first", "third", "second", "fourth"] {
        ch.send(m).unwrap();
    }
    ch.drop_sender();
    ch.drop_sender();
    let mut got = Vec::new();
    while let Received::Message(m) = ch.receive() {
        got.push(m);
    }
    assert_eq!(got, vec!["first", "third", "second", "fourth"]);
    assert_eq!(ch.receive(), Received::Disconnected);
}
