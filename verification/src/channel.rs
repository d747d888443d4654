//! The frame handoff channel: a FIFO queue of completed framebuffers moving
//! from the capture side to the render side. Frames leave in exactly the
//! order they were sent; nothing is dropped or coalesced, so a slow consumer
//! accumulates backlog rather than losing frames.

use vstd::prelude::*;
use std::collections::VecDeque;

verus! {

/// What one attempt to take a frame yields.
pub enum ReceiveOutcome {
    /// The oldest pending framebuffer.
    Frame(Vec<u32>),
    /// Nothing is pending yet; the consumer should wait for the producer.
    WouldBlock,
    /// Nothing is pending and the producer has closed the channel: no frame
    /// will ever arrive again, which is fatal to the consumer.
    Closed,
}

/// Single-producer/single-consumer handoff of framebuffers. The queue is
/// unbounded: sending never blocks the producer. The cross-thread wiring
/// and the consumer's blocking wait are the caller's concern; this type
/// fixes what is handed over and in which order.
pub struct FrameChannel {
    queue: VecDeque<Vec<u32>>,
    shut: bool,
}

impl FrameChannel {
    /// The pending framebuffers, oldest first.
    pub closed spec fn pending(&self) -> Seq<Seq<u32>> {
        self.queue@.map(|i: int, f: Vec<u32>| f@)
    }

    /// Whether the producer has closed the channel.
    pub closed spec fn is_closed(&self) -> bool {
        self.shut
    }

    /// Executable check of `is_closed`, for callers outside the proofs.
    pub fn closed_now(&self) -> (b: bool)
        ensures
            b == self.is_closed(),
    {
        self.shut
    }

    /// An open channel with nothing pending.
    pub fn new() -> (c: FrameChannel)
        ensures
            c.pending() == Seq::<Seq<u32>>::empty(),
            !c.is_closed(),
    {
        let c = FrameChannel { queue: VecDeque::new(), shut: false };
        proof {
            assert(c.pending() =~= Seq::<Seq<u32>>::empty());
        }
        c
    }

    /// Hands a completed framebuffer over: it joins the back of the queue,
    /// behind every frame sent before it.
    pub fn send(&mut self, frame: Vec<u32>)
        requires
            !old(self).is_closed(),
        ensures
            final(self).pending() == old(self).pending().push(frame@),
            !final(self).is_closed(),
    {
        self.queue.push_back(frame);
        proof {
            assert(self.pending() =~= old(self).pending().push(frame@));
        }
    }

    /// Takes the oldest pending framebuffer, or says why none came: the
    /// consumer should wait while the channel is open, and give up once it
    /// is closed and drained.
    pub fn try_receive(&mut self) -> (r: ReceiveOutcome)
        ensures
            final(self).is_closed() == old(self).is_closed(),
            match r {
                ReceiveOutcome::Frame(f) => old(self).pending().len() > 0 && f@ == old(
                    self,
                ).pending()[0] && final(self).pending() == old(self).pending().drop_first(),
                ReceiveOutcome::WouldBlock => old(self).pending().len() == 0 && !old(
                    self,
                ).is_closed() && final(self).pending() == old(self).pending(),
                ReceiveOutcome::Closed => old(self).pending().len() == 0 && old(self).is_closed()
                    && final(self).pending() == old(self).pending(),
            },
    {
        match self.queue.pop_front() {
            Some(f) => {
                proof {
                    assert(self.pending() =~= old(self).pending().drop_first());
                }
                ReceiveOutcome::Frame(f)
            },
            None => {
                if self.shut {
                    ReceiveOutcome::Closed
                } else {
                    ReceiveOutcome::WouldBlock
                }
            },
        }
    }

    /// Law: the channel is first-in first-out. `try_receive` leaves
    /// `pending().drop_first()` behind, so a consumer that has taken `k`
    /// frames from a channel whose pending frames were `p` sees `p.skip(k)`
    /// pending — and its next receive yields `p[k]`: every frame leaves in
    /// exactly the position it was sent.
    pub proof fn lemma_fifo_order(p: Seq<Seq<u32>>, k: int)
        requires
            0 <= k < p.len(),
        ensures
            p.skip(k)[0] == p[k],
            p.skip(k).drop_first() =~= p.skip(k + 1),
    {
    }

    /// The producer is done (it stopped on a fatal error): no further frame
    /// will be sent, but frames already pending can still be received.
    pub fn close(&mut self)
        ensures
            final(self).is_closed(),
            final(self).pending() == old(self).pending(),
    {
        self.shut = true;
    }
}

} // verus!
