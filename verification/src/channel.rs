//! A single-producer, single-consumer channel of owned string messages.
//!
//! The channel buffers any number of in-flight messages and hands them to
//! the one receiver strictly in send order. Its model keeps the full
//! history: `sent` is every message the producer has handed over, and
//! `delivered` is every message the consumer has taken out. The channel's
//! invariant pins `delivered` to a prefix of `sent`, so delivery is exactly
//! once and never reordered; the messages still buffered are exactly the
//! sent ones not yet delivered.

use vstd::prelude::*;

verus! {

/// The one way a send can fail: the receiving end is gone.
#[derive(Clone, Copy, Debug, PartialEq, Eq)]
pub enum ChannelError {
    Disconnected,
}

/// What a single receive attempt reports.
#[derive(Debug)]
pub enum RecvStatus {
    /// The oldest buffered message, removed from the channel.
    Received(String),
    /// Nothing is buffered but the producer is still there: a blocking
    /// receive would wait rather than return.
    WouldBlock,
    /// Nothing is buffered and the producer is gone: no message can ever
    /// arrive, so a blocking receive fails instead of waiting forever.
    Disconnected,
}

/// Everything observable about a channel: the full send and delivery
/// histories and whether each end is still attached.
pub struct ChannelModel {
    pub sent: Seq<Seq<char>>,
    pub delivered: Seq<Seq<char>>,
    pub sender_alive: bool,
    pub receiver_alive: bool,
}

impl ChannelModel {
    /// Delivery never invents, duplicates, drops or reorders a message:
    /// what has been delivered is exactly the oldest prefix of what was
    /// sent.
    pub open spec fn wf(self) -> bool {
        &&& self.delivered.len() <= self.sent.len()
        &&& self.delivered == self.sent.take(self.delivered.len() as int)
    }

    /// The messages still buffered: sent but not yet delivered, oldest
    /// first.
    pub open spec fn pending(self) -> Seq<Seq<char>> {
        self.sent.skip(self.delivered.len() as int)
    }
}

/// A receive attempt on this channel finds nothing buffered but the
/// producer still attached, so it would wait.
pub open spec fn recv_would_block(m: ChannelModel) -> bool {
    m.pending().len() == 0 && m.sender_alive
}

/// A receive attempt on this channel finds nothing buffered and no
/// producer left, so it fails with `Disconnected`.
pub open spec fn recv_disconnected(m: ChannelModel) -> bool {
    m.pending().len() == 0 && !m.sender_alive
}

/// The channel's state after the producer hands over `v`: the send history
/// grows by one entry; the delivery history and both ends are untouched.
pub open spec fn after_send(m: ChannelModel, v: Seq<char>) -> ChannelModel {
    ChannelModel { sent: m.sent.push(v), ..m }
}

/// A receive blocks only until the producer sends: the moment a message is
/// handed over, the channel has it pending, the receiver is no longer
/// blocked, and the next receive attempt returns that very message.
pub proof fn lemma_send_unblocks_receiver(m: ChannelModel, v: Seq<char>)
    requires
        m.wf(),
        recv_would_block(m),
    ensures
        !recv_would_block(after_send(m, v)),
        after_send(m, v).pending().len() > 0,
        after_send(m, v).pending()[0] == v,
{
    assert(m.delivered.len() == m.sent.len());
}

/// Every message the consumer has taken out is one the producer sent, in
/// send order: the `i`th delivery is the `i`th send. Each message is
/// delivered at most once, since each delivery consumes one more position
/// of the send history.
pub proof fn lemma_delivery_in_send_order(m: ChannelModel)
    requires
        m.wf(),
    ensures
        m.delivered.len() <= m.sent.len(),
        forall|i: int| 0 <= i < m.delivered.len() ==> m.delivered[i] == m.sent[i],
{
    assert forall|i: int| 0 <= i < m.delivered.len() implies m.delivered[i] == m.sent[i] by {
        assert(m.delivered[i] == m.sent.take(m.delivered.len() as int)[i]);
    }
}

/// Once nothing is left buffered, every sent message has been delivered:
/// together with `lemma_delivery_in_send_order`, delivery is exactly once
/// and exhaustive.
pub proof fn lemma_drained_means_all_delivered(m: ChannelModel)
    requires
        m.wf(),
        m.pending().len() == 0,
    ensures
        m.delivered == m.sent,
{
    assert forall|i: int| 0 <= i < m.sent.len() implies m.delivered[i] == m.sent[i] by {
        assert(m.delivered[i] == m.sent.take(m.delivered.len() as int)[i]);
    }
    assert(m.delivered =~= m.sent);
}

/// A receive issued before the producer has sent anything does not return
/// a value and does not fail: it blocks until the producer acts.
pub proof fn lemma_recv_blocks_before_first_send(m: ChannelModel)
    requires
        m.wf(),
        m.sender_alive,
        m.sent.len() == 0,
    ensures
        recv_would_block(m),
        !recv_disconnected(m),
{
}

/// If the producer terminated without ever sending, a receive does not
/// block forever: it fails with `Disconnected`.
pub proof fn lemma_recv_fails_after_silent_producer(m: ChannelModel)
    requires
        m.wf(),
        !m.sender_alive,
        m.sent.len() == 0,
    ensures
        recv_disconnected(m),
        !recv_would_block(m),
{
}

/// The channel itself: a FIFO buffer of owned messages, together with the
/// ghost history that its invariant ties the buffer to.
pub struct Channel {
    queue: Vec<String>,
    sender_alive: bool,
    receiver_alive: bool,
    sent: Ghost<Seq<Seq<char>>>,
    delivered: Ghost<Seq<Seq<char>>>,
}

impl View for Channel {
    type V = ChannelModel;

    closed spec fn view(&self) -> ChannelModel {
        ChannelModel {
            sent: self.sent@,
            delivered: self.delivered@,
            sender_alive: self.sender_alive,
            receiver_alive: self.receiver_alive,
        }
    }
}

impl Channel {
    /// The channel's invariant: the model is well formed and the buffer
    /// holds exactly the pending messages, oldest first.
    pub closed spec fn inv(self) -> bool {
        &&& self@.wf()
        &&& self.queue@.len() == self@.pending().len()
        &&& forall|i: int|
            0 <= i < self.queue@.len() ==> (#[trigger] self.queue@[i])@ == self@.pending()[i]
    }

    /// A fresh channel: nothing sent, nothing delivered, both ends
    /// attached.
    pub fn new() -> (c: Channel)
        ensures
            c.inv(),
            c@.sent == Seq::<Seq<char>>::empty(),
            c@.delivered == Seq::<Seq<char>>::empty(),
            c@.sender_alive,
            c@.receiver_alive,
    {
        let c = Channel {
            queue: Vec::new(),
            sender_alive: true,
            receiver_alive: true,
            sent: Ghost(Seq::empty()),
            delivered: Ghost(Seq::empty()),
        };
        proof {
            assert(c@.delivered =~= c@.sent.take(c@.delivered.len() as int));
            assert(c@.pending().len() == 0);
        }
        c
    }

    /// Hands one message to the channel; it never waits, whatever is
    /// already buffered. With the receiver still attached the message is
    /// appended behind everything sent before it; with the receiver gone
    /// the channel is unchanged and the send fails with `Disconnected`.
    pub fn send(&mut self, v: String) -> (r: Result<(), ChannelError>)
        requires
            old(self).inv(),
            old(self)@.sender_alive,
        ensures
            final(self).inv(),
            old(self)@.receiver_alive ==> r is Ok && final(self)@ == after_send(old(self)@, v@),
            !old(self)@.receiver_alive ==> {
                &&& r matches Err(ChannelError::Disconnected)
                &&& final(self)@ == old(self)@
            },
    {
        if self.receiver_alive {
            let ghost vv: Seq<char> = v@;
            self.queue.push(v);
            self.sent = Ghost(self.sent@.push(vv));
            proof {
                let d = self.delivered@.len() as int;
                assert(self.sent@.take(d) =~= old(self).sent@.take(d));
                assert forall|i: int|
                    0 <= i < self.queue@.len() implies (#[trigger] self.queue@[i])@
                    == self@.pending()[i] by {
                    assert(self@.pending()[i] == self.sent@[d + i]);
                    if i < old(self).queue@.len() {
                        assert(old(self).queue@[i]@ == old(self)@.pending()[i]);
                        assert(old(self)@.pending()[i] == old(self).sent@[d + i]);
                    } else {
                        assert(i == old(self).queue@.len());
                        assert(self.queue@[i]@ == vv);
                        assert(self.sent@[d + i] == vv);
                    }
                }
            }
            Ok(())
        } else {
            Err(ChannelError::Disconnected)
        }
    }

    /// One receive attempt; a blocking receive is a wait for the first
    /// attempt that does not report `WouldBlock`. With a message buffered
    /// it removes and returns the oldest one. With nothing buffered it
    /// reports `WouldBlock` while the producer is still attached, and
    /// `Disconnected` once the producer is gone; either way the channel is
    /// unchanged.
    pub fn try_recv(&mut self) -> (r: RecvStatus)
        requires
            old(self).inv(),
            old(self)@.receiver_alive,
        ensures
            final(self).inv(),
            old(self)@.pending().len() > 0 ==> {
                &&& r matches RecvStatus::Received(v) && v@ == old(self)@.pending()[0]
                &&& final(self)@.sent == old(self)@.sent
                &&& final(self)@.delivered == old(self)@.delivered.push(old(self)@.pending()[0])
                &&& final(self)@.sender_alive == old(self)@.sender_alive
                &&& final(self)@.receiver_alive
            },
            recv_would_block(old(self)@) ==> r is WouldBlock && final(self)@ == old(self)@,
            recv_disconnected(old(self)@) ==> r is Disconnected && final(self)@ == old(self)@,
    {
        if self.queue.len() > 0 {
            let v = self.queue.remove(0);
            proof {
                let d = old(self).delivered@.len() as int;
                let q0 = old(self).queue@;
                assert(v@ == old(self)@.pending()[0]) by {
                    assert(q0[0]@ == old(self)@.pending()[0]);
                }
                assert(old(self)@.pending()[0] == old(self).sent@[d]);
                assert(self.queue@ == q0.subrange(0, 0) + q0.subrange(1, q0.len() as int));
                assert forall|j: int| 0 <= j < self.queue@.len() implies #[trigger] self.queue@[j]
                    == q0[j + 1] by {
                    assert(self.queue@[j] == q0.subrange(1, q0.len() as int)[j]);
                }
            }
            self.delivered = Ghost(self.delivered@.push(v@));
            proof {
                let d0 = old(self).delivered@.len() as int;
                let d = self.delivered@.len() as int;
                assert(d == d0 + 1);
                assert forall|i: int| 0 <= i < d implies #[trigger] self.delivered@[i]
                    == self.sent@.take(d)[i] by {
                    assert(self.sent@.take(d)[i] == self.sent@[i]);
                    if i < d0 {
                        assert(self.delivered@[i] == old(self).delivered@[i]);
                        assert(old(self).delivered@[i] == old(self).sent@.take(d0)[i]);
                    } else {
                        assert(self.delivered@[i] == old(self)@.pending()[0]);
                    }
                }
                assert(self.delivered@ =~= self.sent@.take(d));
                assert forall|i: int|
                    0 <= i < self.queue@.len() implies (#[trigger] self.queue@[i])@
                    == self@.pending()[i] by {
                    assert(self.queue@[i] == old(self).queue@[i + 1]);
                    assert(old(self).queue@[i + 1]@ == old(self)@.pending()[i + 1]);
                    assert(old(self)@.pending()[i + 1] == old(self).sent@[d0 + i + 1]);
                    assert(self@.pending()[i] == self.sent@[d + i]);
                }
            }
            RecvStatus::Received(v)
        } else if self.sender_alive {
            RecvStatus::WouldBlock
        } else {
            RecvStatus::Disconnected
        }
    }

    /// The producer detaches. Messages already buffered stay deliverable;
    /// once they are drained, receive attempts report `Disconnected`.
    pub fn drop_sender(&mut self)
        requires
            old(self).inv(),
            old(self)@.sender_alive,
        ensures
            final(self).inv(),
            final(self)@.sent == old(self)@.sent,
            final(self)@.delivered == old(self)@.delivered,
            !final(self)@.sender_alive,
            final(self)@.receiver_alive == old(self)@.receiver_alive,
    {
        self.sender_alive = false;
    }

    /// The consumer detaches: every later send fails with `Disconnected`.
    pub fn drop_receiver(&mut self)
        requires
            old(self).inv(),
            old(self)@.receiver_alive,
        ensures
            final(self).inv(),
            final(self)@.sent == old(self)@.sent,
            final(self)@.delivered == old(self)@.delivered,
            final(self)@.sender_alive == old(self)@.sender_alive,
            !final(self)@.receiver_alive,
    {
        self.receiver_alive = false;
    }
}

} // verus!
