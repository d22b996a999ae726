//! The scancode channel: a FIFO byte queue between interrupt context and
//! the polling consumer.
//!
//! The keyboard interrupt handler pushes raw scancodes; the input pipeline
//! pops them. The push side never blocks and never loses a byte; the pop
//! side is a polling read that returns nothing when the queue is empty.
//! Bytes leave in exactly the order they arrived. The surrounding kernel
//! wraps the channel in an interrupt-safe lock to share it between the two
//! contexts; the queue's behavior under each single operation is what is
//! verified here.

use vstd::prelude::*;

verus! {

pub struct ScancodeChannel {
    pub queue: Vec<u8>,
}

/// The channel is viewed as the sequence of queued bytes, oldest first.
impl View for ScancodeChannel {
    type V = Seq<u8>;

    open spec fn view(&self) -> Seq<u8> {
        self.queue@
    }
}

impl ScancodeChannel {
    pub fn new() -> (r: ScancodeChannel)
        ensures
            r@.len() == 0,
    {
        ScancodeChannel { queue: Vec::new() }
    }

    /// Producer side: enqueues one scancode. Never blocks, never fails,
    /// never reorders.
    pub fn push(&mut self, code: u8)
        ensures
            final(self)@ == old(self)@.push(code),
    {
        self.queue.push(code);
    }

    /// Consumer side: dequeues the oldest scancode, or reports an empty
    /// queue. This is a polling read; waiting is the caller's retry loop.
    pub fn pop(&mut self) -> (r: Option<u8>)
        ensures
            old(self)@.len() == 0 ==> r is None && final(self)@ == old(self)@,
            old(self)@.len() > 0 ==> r == Some(old(self)@.first()) && final(self)@ == old(
                self,
            )@.drop_first(),
    {
        if self.queue.len() == 0 {
            None
        } else {
            let b = self.queue.remove(0);
            proof {
                assert(self@ =~= old(self)@.drop_first());
            }
            Some(b)
        }
    }

    /// How many scancodes are waiting.
    pub fn len(&self) -> (r: usize)
        ensures
            r == self@.len(),
    {
        self.queue.len()
    }
}

/// FIFO order: whatever was already queued, two bytes pushed one after the
/// other come out after the earlier contents, adjacent and in arrival
/// order.
pub proof fn lemma_channel_fifo(queued: Seq<u8>, a: u8, b: u8)
    ensures
        queued.push(a).push(b).skip(queued.len() as int) =~= seq![a, b],
        queued.push(a).push(b).take(queued.len() as int) =~= queued,
{
}

} // verus!
