//! Two parties greeting each other over a pair of channels, one inbox each.
//! A receive that answers `Empty` means the caller must wait and repeat the
//! same step; no step sends anything before the message it waits for arrived.
use vstd::prelude::*;
use crate::channel::{receive_spec, send_spec, Channel, ChannelState, Received};

verus! {

/// What Bob sends first.
pub const BOB_GREETING: &'static str = "Hi Alice! It's a me, Bob";

/// What Alice answers.
pub const ALICE_REPLY: &'static str = "Hey Bob! How you doin'?!";

/// Bob's outbox, Alice's inbox, and what Alice received, after one step of
/// Alice: she takes the next message of her inbox and, once something other
/// than `Empty` came, sends her reply.
pub open spec fn alice_step(to_bob: ChannelState<&'static str>, inbox: ChannelState<&'static str>) -> (
    ChannelState<&'static str>,
    ChannelState<&'static str>,
    Received<&'static str>,
) {
    let (inbox2, r) = receive_spec(inbox);
    if r is Empty {
        (to_bob, inbox2, r)
    } else {
        (send_spec(to_bob, ALICE_REPLY).0, inbox2, r)
    }
}

/// Alice takes the next message of her inbox; unless there was none yet
/// (`Empty`, to be retried by the caller), she then sends her reply to Bob.
/// Answers what she received.
pub fn alice_chat(to_bob: &mut Channel<&'static str>, inbox: &mut Channel<&'static str>) -> (r: Received<
    &'static str,
>)
    ensures
        (final(inbox)@, r) == receive_spec(old(inbox)@),
        r is Empty ==> final(to_bob)@ == old(to_bob)@,
        !(r is Empty) ==> final(to_bob)@ == send_spec(old(to_bob)@, ALICE_REPLY).0,
        (final(to_bob)@, final(inbox)@, r) == alice_step(old(to_bob)@, old(inbox)@),
{
    let got = inbox.receive();
    if let Received::Empty = got {
        return got;
    }
    let _sent = to_bob.send(ALICE_REPLY);
    got
}

/// Bob sends his greeting to Alice, then makes his first attempt to receive;
/// while that answers `Empty`, the caller repeats `bob_listen`.
pub fn bob_chat(to_alice: &mut Channel<&'static str>, inbox: &mut Channel<&'static str>) -> (r: Received<
    &'static str,
>)
    ensures
        final(to_alice)@ == send_spec(old(to_alice)@, BOB_GREETING).0,
        (final(inbox)@, r) == receive_spec(old(inbox)@),
{
    let _sent = to_alice.send(BOB_GREETING);
    bob_listen(inbox)
}

/// One more attempt of Bob to receive, after his greeting was sent.
pub fn bob_listen(inbox: &mut Channel<&'static str>) -> (r: Received<&'static str>)
    ensures
        (final(inbox)@, r) == receive_spec(old(inbox)@),
{
    inbox.receive()
}

/// The channels of a crossed chat before it starts: both queues empty, both
/// consumers alive, each inbox with its producer handle held by the other
/// party.
pub open spec fn fresh_pair(alice_inbox: ChannelState<&'static str>, bob_inbox: ChannelState<
    &'static str,
>) -> bool {
    &&& alice_inbox.0.len() == 0 && alice_inbox.1 > 0 && alice_inbox.2
    &&& bob_inbox.0.len() == 0 && bob_inbox.1 > 0 && bob_inbox.2
}

/// In the crossed chat, in either order of the two parties, Alice receives
/// Bob's greeting and Bob, receiving after Alice's reply, gets that reply.
/// Bob first: he greets and finds nothing yet; Alice then receives the
/// greeting and replies; Bob's next attempt gets the reply. Alice first: she
/// finds nothing yet and sends nothing; Bob greets and finds nothing yet;
/// Alice's next attempt receives the greeting and replies; Bob's next attempt
/// gets the reply.
pub proof fn lemma_crossed_chat(alice_inbox: ChannelState<&'static str>, bob_inbox: ChannelState<
    &'static str,
>)
    requires
        fresh_pair(alice_inbox, bob_inbox),
    ensures
        ({
            let a1 = send_spec(alice_inbox, BOB_GREETING).0;
            let (b1, rb1) = receive_spec(bob_inbox);
            let (b2, a2, ra) = alice_step(b1, a1);
            let (b3, rb2) = receive_spec(b2);
            &&& rb1 == Received::<&'static str>::Empty
            &&& ra == Received::Message(BOB_GREETING)
            &&& rb2 == Received::Message(ALICE_REPLY)
        }),
        ({
            let (b1, a1, ra1) = alice_step(bob_inbox, alice_inbox);
            let a2 = send_spec(a1, BOB_GREETING).0;
            let (b2, rb1) = receive_spec(b1);
            let (b3, a3, ra2) = alice_step(b2, a2);
            let (b4, rb2) = receive_spec(b3);
            &&& ra1 == Received::<&'static str>::Empty
            &&& b1 == bob_inbox
            &&& rb1 == Received::<&'static str>::Empty
            &&& ra2 == Received::Message(BOB_GREETING)
            &&& rb2 == Received::Message(ALICE_REPLY)
        }),
{
}

} // verus!
