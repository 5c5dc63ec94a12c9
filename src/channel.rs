//! The state of a message channel: a FIFO queue with counted producer handles
//! and one consumer handle. Blocking and sharing across threads are left to the
//! caller, which keeps a `Channel` behind a lock and waits while `receive`
//! answers `Empty`.
use vstd::prelude::*;

verus! {

/// The answer to one receive.
#[derive(Debug, PartialEq, Eq)]
pub enum Received<T> {
    /// The oldest message still queued.
    Message(T),
    /// Nothing is queued but a producer remains: the receiver must wait.
    Empty,
    /// Nothing is queued and no producer remains: the stream has ended.
    Disconnected,
}

/// A send that found no consumer; hands the message back.
#[derive(Debug, PartialEq, Eq)]
pub struct ChannelClosed<T>(pub T);

/// Abstract state of a channel: queued messages (oldest first), the number of
/// producer handles, and whether the consumer handle is alive.
pub type ChannelState<T> = (Seq<T>, nat, bool);

/// State and result of a send.
pub open spec fn send_spec<T>(s: ChannelState<T>, msg: T) -> (ChannelState<T>, Result<(), T>) {
    if s.2 {
        ((s.0.push(msg), s.1, s.2), Ok(()))
    } else {
        (s, Err(msg))
    }
}

/// State and result of a receive.
pub open spec fn receive_spec<T>(s: ChannelState<T>) -> (ChannelState<T>, Received<T>) {
    if s.0.len() > 0 {
        ((s.0.drop_first(), s.1, s.2), Received::Message(s.0[0]))
    } else if s.1 == 0 {
        (s, Received::Disconnected)
    } else {
        (s, Received::Empty)
    }
}

/// The state after sending `msgs` in order.
pub open spec fn send_all<T>(s: ChannelState<T>, msgs: Seq<T>) -> ChannelState<T>
    decreases msgs.len(),
{
    if msgs.len() == 0 {
        s
    } else {
        send_spec(send_all(s, msgs.drop_last()), msgs.last()).0
    }
}

/// The state after `n` receives, and their answers in order.
pub open spec fn receive_n<T>(s: ChannelState<T>, n: nat) -> (ChannelState<T>, Seq<Received<T>>)
    decreases n,
{
    if n == 0 {
        (s, Seq::empty())
    } else {
        let (s1, r) = receive_spec(s);
        let (s2, rs) = receive_n(s1, (n - 1) as nat);
        (s2, seq![r] + rs)
    }
}

/// Messages as the answers that deliver them.
pub open spec fn delivered<T>(msgs: Seq<T>) -> Seq<Received<T>> {
    msgs.map_values(|m: T| Received::Message(m))
}

/// A channel between producers and one consumer.
pub struct Channel<T> {
    queue: Vec<T>,
    senders: usize,
    receiver_open: bool,
}

impl<T> View for Channel<T> {
    type V = ChannelState<T>;

    closed spec fn view(&self) -> ChannelState<T> {
        (self.queue@, self.senders as nat, self.receiver_open)
    }
}

impl<T> Channel<T> {
    /// An empty channel with one producer handle and a live consumer.
    pub fn new() -> (r: Channel<T>)
        ensures
            r@ == (Seq::<T>::empty(), 1nat, true),
    {
        Channel { queue: Vec::new(), senders: 1, receiver_open: true }
    }

    /// Queues `msg` behind the earlier messages; fails, handing `msg` back, when
    /// the consumer is gone.
    pub fn send(&mut self, msg: T) -> (r: Result<(), ChannelClosed<T>>)
        ensures
            final(self)@ == send_spec(old(self)@, msg).0,
            match send_spec(old(self)@, msg).1 {
                Ok(_) => r is Ok,
                Err(m) => r == Err::<(), ChannelClosed<T>>(ChannelClosed(m)),
            },
    {
        if self.receiver_open {
            self.queue.push(msg);
            Ok(())
        } else {
            Err(ChannelClosed(msg))
        }
    }

    /// Takes the oldest queued message, or says why there is none.
    pub fn receive(&mut self) -> (r: Received<T>)
        ensures
            (final(self)@, r) == receive_spec(old(self)@),
    {
        if self.queue.len() > 0 {
            let m = self.queue.remove(0);
            assert(self.queue@ =~= old(self).queue@.drop_first());
            Received::Message(m)
        } else if self.senders == 0 {
            Received::Disconnected
        } else {
            Received::Empty
        }
    }

    /// The number of producer handles.
    pub fn sender_count(&self) -> (r: usize)
        ensures
            r == self@.1,
    {
        self.senders
    }

    /// Whether the consumer handle is alive.
    pub fn is_receiver_open(&self) -> (r: bool)
        ensures
            r == self@.2,
    {
        self.receiver_open
    }

    /// The number of queued messages.
    pub fn pending(&self) -> (r: usize)
        ensures
            r == self@.0.len(),
    {
        self.queue.len()
    }

    /// Registers one more producer handle.
    pub fn add_sender(&mut self)
        requires
            old(self)@.1 < usize::MAX,
        ensures
            final(self)@ == (old(self)@.0, old(self)@.1 + 1, old(self)@.2),
    {
        self.senders = self.senders + 1;
    }

    /// Drops one producer handle.
    pub fn drop_sender(&mut self)
        requires
            old(self)@.1 > 0,
        ensures
            final(self)@ == (old(self)@.0, (old(self)@.1 - 1) as nat, old(self)@.2),
    {
        self.senders = self.senders - 1;
    }

    /// Drops the consumer handle: later sends fail.
    pub fn close_receiver(&mut self)
        ensures
            final(self)@ == (old(self)@.0, old(self)@.1, false),
    {
        self.receiver_open = false;
    }
}

/// While the consumer is alive, sending `msgs` one after another appends them
/// to the queue in the order sent and leaves the handles as they were.
pub proof fn lemma_send_all<T>(s: ChannelState<T>, msgs: Seq<T>)
    requires
        s.2,
    ensures
        send_all(s, msgs) == (s.0 + msgs, s.1, s.2),
    decreases msgs.len(),
{
    if msgs.len() > 0 {
        lemma_send_all(s, msgs.drop_last());
        assert(s.0 + msgs.drop_last() + seq![msgs.last()] =~= s.0 + msgs);
        assert((s.0 + msgs.drop_last()).push(msgs.last()) =~= s.0 + msgs);
    } else {
        assert(s.0 + msgs =~= s.0);
    }
}

/// The first `n` receives from a queue of at least `n` messages deliver its
/// first `n` messages in order and leave the rest queued.
pub proof fn lemma_receive_prefix<T>(s: ChannelState<T>, n: nat)
    requires
        n <= s.0.len(),
    ensures
        receive_n(s, n) == ((s.0.subrange(n as int, s.0.len() as int), s.1, s.2), delivered(
            s.0.subrange(0, n as int),
        )),
    decreases n,
{
    if n == 0 {
        assert(s.0.subrange(0, s.0.len() as int) =~= s.0);
        assert(delivered(s.0.subrange(0, 0)) =~= Seq::<Received<T>>::empty());
    } else {
        let s1 = (s.0.drop_first(), s.1, s.2);
        lemma_receive_prefix(s1, (n - 1) as nat);
        assert(s1.0.subrange((n - 1) as int, s1.0.len() as int) =~= s.0.subrange(
            n as int,
            s.0.len() as int,
        ));
        assert(seq![Received::Message(s.0[0])] + delivered(s1.0.subrange(0, (n - 1) as int))
            =~= delivered(s.0.subrange(0, n as int)));
    }
}

/// Once no producer remains and the queue is drained, every receive answers
/// `Disconnected` and leaves the channel as it is.
pub proof fn lemma_disconnected_stays<T>(s: ChannelState<T>, n: nat)
    requires
        s.0.len() == 0,
        s.1 == 0,
    ensures
        receive_n(s, n).0 == s,
        forall|i: int| 0 <= i < n ==> receive_n(s, n).1[i] == Received::<T>::Disconnected,
        receive_n(s, n).1.len() == n,
    decreases n,
{
    if n > 0 {
        lemma_disconnected_stays(s, (n - 1) as nat);
    }
}

/// Messages that one producer sends are received in the order sent. After the
/// last producer handle is dropped, the consumer first receives every queued
/// message, then `Disconnected`, and from then on `Disconnected` on every
/// receive, with the channel unchanged.
pub proof fn lemma_channel_order_and_end<T>(s: ChannelState<T>, msgs: Seq<T>, extra: nat)
    requires
        s.0.len() == 0,
        s.2,
    ensures
        receive_n(send_all(s, msgs), msgs.len()).1 == delivered(msgs),
        receive_n(send_all(s, msgs), msgs.len()).0 == (Seq::<T>::empty(), s.1, s.2),
        s.1 == 0 ==> {
            let drained = receive_n(send_all(s, msgs), msgs.len()).0;
            &&& receive_spec(drained) == (drained, Received::<T>::Disconnected)
            &&& receive_n(drained, extra).0 == drained
            &&& forall|i: int|
                0 <= i < extra ==> receive_n(drained, extra).1[i] == Received::<T>::Disconnected
        },
{
    lemma_send_all(s, msgs);
    assert(s.0 + msgs =~= msgs);
    lemma_receive_prefix(send_all(s, msgs), msgs.len());
    assert(msgs.subrange(0, msgs.len() as int) =~= msgs);
    assert(msgs.subrange(msgs.len() as int, msgs.len() as int) =~= Seq::<T>::empty());
    let drained = (Seq::<T>::empty(), s.1, s.2);
    if s.1 == 0 {
        lemma_disconnected_stays(drained, extra);
    }
}

} // verus!
