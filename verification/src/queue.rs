use vstd::prelude::*;
use crate::message::Message;

verus! {

/// A FIFO message queue: the sequential core of the connection layer's
/// buffering. An enqueue appends at the back, a dequeue removes the front,
/// so messages leave in exactly the order they entered. The surrounding
/// runtime shares a queue between threads under its own lock and waits for
/// items with its own condition variable; every change to the contents goes
/// through these verified operations.
pub struct MsgQueue {
    items: Vec<Message>,
}

impl View for MsgQueue {
    type V = Seq<Message>;

    closed spec fn view(&self) -> Seq<Message> {
        self.items@
    }
}

impl MsgQueue {
    /// An empty queue.
    pub fn new() -> (q: MsgQueue)
        ensures
            q@.len() == 0,
    {
        MsgQueue { items: Vec::new() }
    }

    /// Append a message at the back; everything already queued stays, in
    /// its order, ahead of it.
    pub fn en_q(&mut self, msg: Message)
        ensures
            final(self)@ == old(self)@.push(msg),
    {
        self.items.push(msg);
    }

    /// Remove and return the front: the oldest message still queued.
    pub fn de_q(&mut self) -> (m: Message)
        requires
            old(self)@.len() > 0,
        ensures
            m == old(self)@[0],
            final(self)@ == old(self)@.skip(1),
    {
        let m = self.items.remove(0);
        proof {
            assert(self@ =~= old(self)@.skip(1));
        }
        m
    }

    /// How many messages are queued.
    pub fn len(&self) -> (n: usize)
        ensures
            n == self@.len(),
    {
        self.items.len()
    }
}

} // verus!
