//! An ordered, unbounded queue of messages with any number of sending
//! endpoints and one receiving endpoint.
//!
//! `Channel` is the shared state behind the endpoints: whoever runs it across
//! threads keeps it under a lock and wakes blocked receivers when it changes.
//! Each sending endpoint is known by the index it was given.  Every message a
//! sender hands over is queued behind all earlier ones, so the receiver sees
//! each sender's messages in the order that sender sent them, interleaved in
//! some way with the messages of other senders.
use std::collections::VecDeque;
use vstd::prelude::*;

verus! {

/// A queued message together with the sender that sent it.
pub struct Envelope<T> {
    pub sender: usize,
    pub message: T,
}

/// What a non-blocking receive observes.
#[derive(Debug)]
pub enum Received<T> {
    /// The oldest queued message, now owned by the receiver.
    Message(T),
    /// Nothing is queued, but some sender may still send.
    Empty,
    /// Nothing is queued and every sender is gone: the stream has ended.
    Disconnected,
}

/// The messages of `s` that came from `sender`, in the order they stand in `s`.
pub open spec fn from_sender<T>(s: Seq<Envelope<T>>, sender: int) -> Seq<T>
    decreases s.len(),
{
    if s.len() == 0 {
        Seq::empty()
    } else {
        let rest = from_sender(s.drop_last(), sender);
        if s.last().sender == sender {
            rest.push(s.last().message)
        } else {
            rest
        }
    }
}

/// The messages of `s` without their senders.
pub open spec fn messages<T>(s: Seq<Envelope<T>>) -> Seq<T> {
    s.map_values(|e: Envelope<T>| e.message)
}

/// The abstract state of a channel.
pub struct ChannelState<T> {
    /// Messages sent and not yet received, oldest first.
    pub pending: Seq<Envelope<T>>,
    /// Messages the receiver has taken, in the order it took them.
    pub received: Seq<Envelope<T>>,
    /// For each sender, everything it has sent, in the order it sent it.
    pub sent: Seq<Seq<T>>,
    /// For each sender, whether it is still alive.
    pub senders: Seq<bool>,
    /// Whether the receiving endpoint is still alive.
    pub receiver_alive: bool,
}

impl<T> ChannelState<T> {
    /// Some sender is still alive, so more messages may come.
    pub open spec fn has_live_sender(self) -> bool {
        exists|i: int| 0 <= i < self.senders.len() && #[trigger] self.senders[i]
    }

    /// `id` names a sender of this channel that has not been dropped.
    pub open spec fn is_live(self, id: usize) -> bool {
        id < self.senders.len() && self.senders[id as int]
    }
}

/// What a non-blocking receive observes on a channel in state `s`, and the
/// state after it.  The oldest pending message is taken if there is one;
/// otherwise the answer is `Empty` while some sender is alive and
/// `Disconnected` once every sender is gone, and nothing changes.
pub open spec fn recv_outcome<T>(s: ChannelState<T>) -> (Received<T>, ChannelState<T>) {
    if s.pending.len() > 0 {
        (
            Received::Message(s.pending[0].message),
            ChannelState {
                pending: s.pending.drop_first(),
                received: s.received.push(s.pending[0]),
                ..s
            },
        )
    } else if s.has_live_sender() {
        (Received::Empty, s)
    } else {
        (Received::Disconnected, s)
    }
}

pub struct Channel<T> {
    queue: VecDeque<Envelope<T>>,
    senders: Vec<bool>,
    receiver_alive: bool,
    received: Ghost<Seq<Envelope<T>>>,
    sent: Ghost<Seq<Seq<T>>>,
}

impl<T> View for Channel<T> {
    type V = ChannelState<T>;

    closed spec fn view(&self) -> ChannelState<T> {
        ChannelState {
            pending: self.queue@,
            received: self.received@,
            sent: self.sent@,
            senders: self.senders@,
            receiver_alive: self.receiver_alive,
        }
    }
}

/// Appending a message of `sender` appends it to that sender's messages and
/// leaves every other sender's messages as they were.
proof fn lemma_from_sender_push<T>(s: Seq<Envelope<T>>, e: Envelope<T>, sender: int)
    ensures
        from_sender(s.push(e), sender) == if e.sender == sender {
            from_sender(s, sender).push(e.message)
        } else {
            from_sender(s, sender)
        },
{
    assert(s.push(e).drop_last() =~= s);
}

/// A sender that occurs in `s` has at least one message in `s`.
proof fn lemma_from_sender_nonempty<T>(s: Seq<Envelope<T>>, k: int)
    requires
        0 <= k < s.len(),
    ensures
        from_sender(s, s[k].sender as int).len() > 0,
    decreases s.len(),
{
    if k < s.len() - 1 {
        lemma_from_sender_nonempty(s.drop_last(), k);
    }
}

/// A sender that does not occur in `s` has no messages in `s`.
proof fn lemma_from_absent_sender<T>(s: Seq<Envelope<T>>, sender: int)
    requires
        forall|k: int| 0 <= k < s.len() ==> (#[trigger] s[k]).sender != sender,
    ensures
        from_sender(s, sender) == Seq::<T>::empty(),
    decreases s.len(),
{
    if s.len() > 0 {
        lemma_from_absent_sender(s.drop_last(), sender);
    }
}

/// Where every message of `s` came from `sender`, that sender's messages are
/// all of `s`.
proof fn lemma_from_only_sender<T>(s: Seq<Envelope<T>>, sender: int)
    requires
        forall|k: int| 0 <= k < s.len() ==> (#[trigger] s[k]).sender == sender,
    ensures
        from_sender(s, sender) == messages(s),
    decreases s.len(),
{
    if s.len() > 0 {
        lemma_from_only_sender(s.drop_last(), sender);
        assert(messages(s) =~= messages(s.drop_last()).push(s.last().message));
    }
}

impl<T> Channel<T> {
    /// The channel's internal consistency: every sender's messages, taken
    /// over what was received and what is pending, are exactly what that
    /// sender sent, and every message names a sender of this channel.
    pub closed spec fn wf(&self) -> bool {
        let all = self.received@ + self.queue@;
        &&& self.sent@.len() == self.senders@.len()
        &&& forall|k: int| 0 <= k < all.len() ==> (#[trigger] all[k]).sender < self.senders@.len()
        &&& forall|id: int|
            0 <= id < self.senders@.len() ==> #[trigger] from_sender(all, id) == self.sent@[id]
    }

    /// A new channel with one live sender, whose index is returned, and a
    /// live receiver.
    pub fn new() -> (r: (Channel<T>, usize))
        ensures
            r.0.wf(),
            r.1 == 0,
            r.0@.pending.len() == 0,
            r.0@.received.len() == 0,
            r.0@.sent == seq![Seq::<T>::empty()],
            r.0@.senders == seq![true],
            r.0@.receiver_alive,
    {
        let mut senders: Vec<bool> = Vec::new();
        senders.push(true);
        let c = Channel {
            queue: VecDeque::new(),
            senders,
            receiver_alive: true,
            received: Ghost(Seq::empty()),
            sent: Ghost(Seq::empty().push(Seq::empty())),
        };
        assert(c.received@ + c.queue@ =~= Seq::<Envelope<T>>::empty());
        assert(c.senders@ =~= seq![true]);
        (c, 0)
    }

    /// Adds a sender as a copy of the live sender `from`, and returns the
    /// new sender's index.
    pub fn add_sender(&mut self, from: usize) -> (id: usize)
        requires
            old(self).wf(),
            old(self)@.is_live(from),
        ensures
            final(self).wf(),
            id == old(self)@.senders.len(),
            final(self)@ == (ChannelState {
                senders: old(self)@.senders.push(true),
                sent: old(self)@.sent.push(Seq::empty()),
                ..old(self)@
            }),
    {
        let id = self.senders.len();
        self.senders.push(true);
        self.sent = Ghost(self.sent@.push(Seq::empty()));
        let ghost all = self.received@ + self.queue@;
        assert forall|j: int| 0 <= j < self.senders@.len() implies #[trigger] from_sender(
            all,
            j,
        ) == self.sent@[j] by {
            if j == id {
                lemma_from_absent_sender(all, j);
            }
        }
        id
    }

    /// Drops the sender `id`: it sends nothing more.
    pub fn drop_sender(&mut self, id: usize)
        requires
            old(self).wf(),
            id < old(self)@.senders.len(),
        ensures
            final(self).wf(),
            final(self)@ == (ChannelState { senders: old(self)@.senders.update(id as int, false), ..old(self)@ }),
    {
        self.senders.set(id, false);
    }

    /// Drops the receiver: from now on every send fails.
    pub fn drop_receiver(&mut self)
        requires
            old(self).wf(),
        ensures
            final(self).wf(),
            final(self)@ == (ChannelState { receiver_alive: false, ..old(self)@ }),
    {
        self.receiver_alive = false;
    }

    /// Whether sender `id` is still alive.
    pub fn is_live(&self, id: usize) -> (r: bool)
        ensures
            r == self@.is_live(id),
    {
        id < self.senders.len() && self.senders[id]
    }

    /// Whether any sender is still alive.
    pub fn has_live_sender(&self) -> (r: bool)
        ensures
            r == self@.has_live_sender(),
    {
        let mut i: usize = 0;
        while i < self.senders.len()
            invariant
                0 <= i <= self.senders@.len(),
                forall|j: int| 0 <= j < i ==> !(#[trigger] self.senders@[j]),
            decreases self.senders@.len() - i,
        {
            if self.senders[i] {
                assert(self@.senders[i as int]);
                return true;
            }
            i = i + 1;
        }
        false
    }

    /// The number of messages sent and not yet received.
    pub fn pending_len(&self) -> (r: usize)
        ensures
            r == self@.pending.len(),
    {
        self.queue.len()
    }

    /// Sender `id` hands `message` to the channel.  This never waits.  It
    /// fails, giving the message back, exactly when the receiver is gone.
    pub fn send(&mut self, id: usize, message: T) -> (r: Result<(), T>)
        requires
            old(self).wf(),
            old(self)@.is_live(id),
        ensures
            final(self).wf(),
            old(self)@.receiver_alive ==> r is Ok && final(self)@ == (ChannelState {
                pending: old(self)@.pending.push(Envelope { sender: id, message }),
                sent: old(self)@.sent.update(id as int, old(self)@.sent[id as int].push(message)),
                ..old(self)@
            }),
            !old(self)@.receiver_alive ==> r == Err::<(), T>(message) && final(self)@ == old(self)@,
    {
        if !self.receiver_alive {
            return Err(message);
        }
        let ghost before = self.received@ + self.queue@;
        let ghost e = Envelope { sender: id, message };
        self.queue.push_back(Envelope { sender: id, message });
        self.sent = Ghost(self.sent@.update(id as int, self.sent@[id as int].push(message)));
        let ghost all = self.received@ + self.queue@;
        assert(all =~= before.push(e));
        assert forall|j: int| 0 <= j < self.senders@.len() implies #[trigger] from_sender(
            all,
            j,
        ) == self.sent@[j] by {
            lemma_from_sender_push(before, e, j);
        }
        assert forall|k: int| 0 <= k < all.len() implies (#[trigger] all[k]).sender
            < self.senders@.len() by {
            if k < before.len() {
                assert(all[k] == before[k]);
            }
        }
        Ok(())
    }

    /// Takes the oldest pending message without waiting, as `recv_outcome`
    /// describes.
    pub fn try_recv(&mut self) -> (r: Received<T>)
        requires
            old(self).wf(),
        ensures
            final(self).wf(),
            (r, final(self)@) == recv_outcome(old(self)@),
    {
        let ghost all = self.received@ + self.queue@;
        match self.queue.pop_front() {
            Some(e) => {
                self.received = Ghost(self.received@.push(e));
                assert(self.received@ + self.queue@ =~= all);
                Received::Message(e.message)
            },
            None => {
                if self.has_live_sender() {
                    Received::Empty
                } else {
                    Received::Disconnected
                }
            },
        }
    }

    /// Takes every pending message, oldest first.
    pub fn drain(&mut self) -> (r: Vec<T>)
        requires
            old(self).wf(),
        ensures
            final(self).wf(),
            r@ == messages(old(self)@.pending),
            final(self)@ == (ChannelState {
                pending: Seq::empty(),
                received: old(self)@.received + old(self)@.pending,
                ..old(self)@
            }),
    {
        let ghost start = self@;
        let mut out: Vec<T> = Vec::new();
        assert(start.pending.subrange(0, 0) =~= Seq::<Envelope<T>>::empty());
        assert(start.received + start.pending.subrange(0, 0) =~= start.received);
        assert(start.pending.subrange(0, start.pending.len() as int) =~= start.pending);
        assert(messages(start.pending.subrange(0, 0)) =~= out@);
        while self.queue.len() > 0
            invariant
                self.wf(),
                out@.len() <= start.pending.len(),
                out@ == messages(start.pending.subrange(0, out@.len() as int)),
                self@ == (ChannelState {
                    pending: start.pending.subrange(out@.len() as int, start.pending.len() as int),
                    received: start.received + start.pending.subrange(0, out@.len() as int),
                    ..start
                }),
            decreases self@.pending.len(),
        {
            let ghost k = out@.len() as int;
            let ghost n = start.pending.len() as int;
            match self.try_recv() {
                Received::Message(m) => {
                    out.push(m);
                    assert(start.pending.subrange(k, n).drop_first() =~= start.pending.subrange(
                        k + 1,
                        n,
                    ));
                    assert(start.pending.subrange(0, k + 1) =~= start.pending.subrange(0, k).push(
                        start.pending[k],
                    ));
                    assert(start.received + start.pending.subrange(0, k + 1) =~= (start.received
                        + start.pending.subrange(0, k)).push(start.pending[k]));
                    assert(messages(start.pending.subrange(0, k + 1)) =~= messages(
                        start.pending.subrange(0, k),
                    ).push(m));
                },
                _ => {},
            }
        }
        let ghost n = start.pending.len() as int;
        assert(start.pending.subrange(0, n) =~= start.pending);
        assert(start.pending.subrange(n, n) =~= Seq::<Envelope<T>>::empty());
        out
    }
}

/// Whatever the senders did and however their sends interleaved, each
/// sender's messages reach the receiver in the order that sender sent them:
/// restricted to one sender, what was received followed by what is still
/// pending is exactly what that sender sent.
pub proof fn lemma_sender_order_kept<T>(c: &Channel<T>, id: usize)
    requires
        c.wf(),
        id < c@.senders.len(),
    ensures
        from_sender(c@.received + c@.pending, id as int) == c@.sent[id as int],
{
}

/// Once every sender has been dropped and the pending messages are taken, a
/// receive reports the end of the stream instead of waiting, and leaves the
/// channel as it was, so every later receive reports it too.  No sender can
/// come back: a new one is only ever copied from a live one.
pub proof fn lemma_end_of_stream<T>(s: ChannelState<T>)
    requires
        s.pending.len() == 0,
        forall|i: int| 0 <= i < s.senders.len() ==> !(#[trigger] s.senders[i]),
    ensures
        recv_outcome(s) == (Received::<T>::Disconnected, s),
{
}

/// A receiver that has drained a channel on which only sender `id` ever sent
/// has taken exactly that sender's messages, in the order they were sent.
pub proof fn lemma_single_sender_stream<T>(c: &Channel<T>, id: usize)
    requires
        c.wf(),
        id < c@.senders.len(),
        c@.pending.len() == 0,
        forall|j: int| 0 <= j < c@.senders.len() && j != id ==> #[trigger] c@.sent[j].len() == 0,
    ensures
        messages(c@.received) == c@.sent[id as int],
{
    let all = c@.received + c@.pending;
    assert(all =~= c@.received);
    assert forall|k: int| 0 <= k < all.len() implies (#[trigger] all[k]).sender == id by {
        let s = all[k].sender as int;
        lemma_from_sender_nonempty(all, k);
        assert(from_sender(all, s) == c@.sent[s]);
        if s != id {
            assert(c@.sent[s].len() == 0);
        }
    }
    lemma_from_only_sender(all, id as int);
}

} // verus!
