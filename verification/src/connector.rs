use vstd::prelude::*;
use crate::message::Message;
use crate::queue::MsgQueue;

verus! {

/// The client-role endpoint: the sequential core of a bidirectional message
/// channel. It owns an outbound queue (application to wire) and an inbound
/// queue (wire to application) and a flag recording that the initial
/// connect succeeded.
///
/// The surrounding runtime owns the socket and the two pump threads: the
/// send pump drains the outbound queue onto the wire with `take_outbound`,
/// and the receive pump feeds decoded messages into the inbound queue with
/// `deliver_inbound`, each under the runtime's lock. Every change to the
/// channel's state goes through these verified operations, so posting order
/// is preserved end to end through both queues.
pub struct Connector {
    snd_queue: MsgQueue,
    rcv_queue: MsgQueue,
    connected: bool,
}

impl Connector {
    /// The outbound queue's contents, oldest first.
    pub closed spec fn outbound(&self) -> Seq<Message> {
        self.snd_queue@
    }

    /// The inbound queue's contents, oldest first.
    pub closed spec fn inbound(&self) -> Seq<Message> {
        self.rcv_queue@
    }

    /// Whether the initial connect succeeded.
    pub closed spec fn connected(&self) -> bool {
        self.connected
    }

    /// A freshly connected channel: both queues empty. The runtime builds
    /// one only after its connect attempt succeeded; on a failed connect it
    /// reports the failure and builds nothing, so no channel ever exists
    /// for a failed connect.
    pub fn new() -> (c: Connector)
        ensures
            c.outbound().len() == 0,
            c.inbound().len() == 0,
            c.connected(),
    {
        Connector { snd_queue: MsgQueue::new(), rcv_queue: MsgQueue::new(), connected: true }
    }

    /// Post a message for sending: a non-blocking enqueue at the back of
    /// the outbound queue. No delivery confirmation is given. Everything
    /// posted earlier stays ahead of it, so the wire sees posts in posting
    /// order.
    pub fn post_message(&mut self, msg: Message)
        ensures
            final(self).outbound() == old(self).outbound().push(msg),
            final(self).inbound() == old(self).inbound(),
            final(self).connected() == old(self).connected(),
    {
        self.snd_queue.en_q(msg);
    }

    /// The send pump's dequeue: remove and return the oldest posted message,
    /// or report an empty outbound queue.
    pub fn take_outbound(&mut self) -> (m: Option<Message>)
        ensures
            old(self).outbound().len() == 0 ==> m is None && *final(self) == *old(self),
            old(self).outbound().len() > 0 ==> m == Some(old(self).outbound()[0])
                && final(self).outbound() == old(self).outbound().skip(1),
            final(self).inbound() == old(self).inbound(),
            final(self).connected() == old(self).connected(),
    {
        if self.snd_queue.len() > 0 {
            Some(self.snd_queue.de_q())
        } else {
            None
        }
    }

    /// The receive pump's enqueue: append one message decoded from the wire
    /// at the back of the inbound queue.
    pub fn deliver_inbound(&mut self, msg: Message)
        ensures
            final(self).inbound() == old(self).inbound().push(msg),
            final(self).outbound() == old(self).outbound(),
            final(self).connected() == old(self).connected(),
    {
        self.rcv_queue.en_q(msg);
    }

    /// Take the oldest received message. The blocking read: the runtime
    /// waits until the inbound queue is non-empty and only then consumes,
    /// so the call is made exactly when a message is available. The message
    /// returned is removed — a message is handed to the application exactly
    /// once.
    pub fn get_message(&mut self) -> (m: Message)
        requires
            old(self).inbound().len() > 0,
        ensures
            m == old(self).inbound()[0],
            final(self).inbound() == old(self).inbound().skip(1),
            final(self).outbound() == old(self).outbound(),
            final(self).connected() == old(self).connected(),
    {
        self.rcv_queue.de_q()
    }

    /// Whether a received message is waiting right now. A hint only: under
    /// the runtime's sharing the queue may change immediately after the
    /// check.
    pub fn has_msg(&self) -> (r: bool)
        ensures
            r == (self.inbound().len() > 0),
    {
        self.rcv_queue.len() > 0
    }

    /// Whether the initial connect attempt succeeded. Later socket failures
    /// are not tracked here.
    pub fn is_connected(&self) -> (r: bool)
        ensures
            r == self.connected(),
    {
        self.connected
    }
}

} // verus!
