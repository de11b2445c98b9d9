use vstd::prelude::*;
use crate::message::{Message, MessageType, is_terminal, message_type_is_terminal};

verus! {

// ---------------------------------------------------------------------------
// Per-connection handler: a three-state machine.
//
// A handler thread owns one accepted socket. It repeatedly receives a
// message, decides from the discriminant whether to reply, to close the
// socket, or to terminate, and performs the action the step prescribes.
// The surrounding loop does the I/O; every decision is made here.
// ---------------------------------------------------------------------------

/// States of the per-connection handler.
#[derive(Clone, Copy, Debug, PartialEq, Eq, Structural)]
pub enum HandlerState {
    /// Waiting for the next message from the peer.
    AwaitMessage,
    /// An ordinary message arrived; a reply is being produced and sent.
    Process,
    /// The handler is done; no further I/O happens on this socket.
    Terminated,
}

/// What the handler loop observed since the last step.
#[derive(Clone, Copy, Debug, PartialEq, Eq, Structural)]
pub enum HandlerEvent {
    /// The receive call failed: I/O error or the peer closed the stream.
    RecvFailed,
    /// A message arrived carrying this discriminant.
    Received(MessageType),
    /// The reply was handed to the wire; the flag tells whether the send
    /// call succeeded.
    ReplySent(bool),
}

/// The side effect the handler loop must perform after a step.
#[derive(Clone, Copy, Debug, PartialEq, Eq, Structural)]
pub enum HandlerAction {
    /// Nothing beyond what the next state asks for.
    Idle,
    /// Process the received message and send the reply.
    Reply,
    /// Shut down both directions of the socket.
    CloseSocket,
}

/// The successor state. An event that cannot arise in a state (a receive
/// outcome while processing, a send outcome while awaiting) leaves the
/// state unchanged; the loop never produces such a pair.
pub open spec fn handler_next(s: HandlerState, e: HandlerEvent) -> HandlerState {
    match s {
        HandlerState::AwaitMessage => match e {
            HandlerEvent::RecvFailed => HandlerState::Terminated,
            HandlerEvent::Received(t) => if is_terminal(t) {
                HandlerState::Terminated
            } else {
                HandlerState::Process
            },
            HandlerEvent::ReplySent(_) => HandlerState::AwaitMessage,
        },
        HandlerState::Process => match e {
            // A failed send of a reply is not terminal: the handler goes
            // back to await the next message (the broken socket will make
            // that receive fail in due course).
            HandlerEvent::ReplySent(_) => HandlerState::AwaitMessage,
            _ => HandlerState::Process,
        },
        HandlerState::Terminated => HandlerState::Terminated,
    }
}

/// The action a step prescribes.
pub open spec fn handler_action(s: HandlerState, e: HandlerEvent) -> HandlerAction {
    match s {
        HandlerState::AwaitMessage => match e {
            HandlerEvent::Received(t) => if t == MessageType::Shutdown {
                HandlerAction::CloseSocket
            } else if is_terminal(t) {
                HandlerAction::Idle
            } else {
                HandlerAction::Reply
            },
            _ => HandlerAction::Idle,
        },
        HandlerState::Process => HandlerAction::Idle,
        HandlerState::Terminated => HandlerAction::Idle,
    }
}

/// One step of the handler machine: from the current state and the observed
/// event to the next state and the action the loop must perform.
///
/// An `End` or `Quit` message terminates the handler without a reply; a
/// `Shutdown` message closes both directions of the socket and terminates;
/// an ordinary message is answered with exactly one reply; a failed receive
/// terminates; a terminated handler never acts again.
pub fn handler_step(s: HandlerState, e: HandlerEvent) -> (r: (HandlerState, HandlerAction))
    ensures
        r.0 == handler_next(s, e),
        r.1 == handler_action(s, e),
        s == HandlerState::AwaitMessage && e == HandlerEvent::Received(MessageType::End)
            ==> r.0 == HandlerState::Terminated && r.1 == HandlerAction::Idle,
        s == HandlerState::AwaitMessage && e == HandlerEvent::Received(MessageType::Quit)
            ==> r.0 == HandlerState::Terminated && r.1 == HandlerAction::Idle,
        s == HandlerState::AwaitMessage && e == HandlerEvent::Received(MessageType::Shutdown)
            ==> r.0 == HandlerState::Terminated && r.1 == HandlerAction::CloseSocket,
        s == HandlerState::AwaitMessage && e == HandlerEvent::Received(MessageType::Data)
            ==> r.0 == HandlerState::Process && r.1 == HandlerAction::Reply,
        s == HandlerState::AwaitMessage && e == HandlerEvent::RecvFailed
            ==> r.0 == HandlerState::Terminated && r.1 == HandlerAction::Idle,
        s == HandlerState::Terminated ==> r.0 == HandlerState::Terminated && r.1 == HandlerAction::Idle,
        r.1 == HandlerAction::Reply <==> (s == HandlerState::AwaitMessage
            && e == HandlerEvent::Received(MessageType::Data)),
{
    match s {
        HandlerState::AwaitMessage => match e {
            HandlerEvent::RecvFailed => (HandlerState::Terminated, HandlerAction::Idle),
            HandlerEvent::Received(t) => {
                if t == MessageType::Shutdown {
                    (HandlerState::Terminated, HandlerAction::CloseSocket)
                } else if message_type_is_terminal(t) {
                    (HandlerState::Terminated, HandlerAction::Idle)
                } else {
                    (HandlerState::Process, HandlerAction::Reply)
                }
            },
            HandlerEvent::ReplySent(_) => (HandlerState::AwaitMessage, HandlerAction::Idle),
        },
        HandlerState::Process => match e {
            HandlerEvent::ReplySent(_) => (HandlerState::AwaitMessage, HandlerAction::Idle),
            _ => (HandlerState::Process, HandlerAction::Idle),
        },
        HandlerState::Terminated => (HandlerState::Terminated, HandlerAction::Idle),
    }
}

/// The state after the handler has consumed a whole sequence of events.
pub open spec fn handler_run(s: HandlerState, events: Seq<HandlerEvent>) -> HandlerState
    decreases events.len(),
{
    if events.len() == 0 {
        s
    } else {
        handler_run(handler_next(s, events[0]), events.skip(1))
    }
}

/// The actions a whole sequence of events prescribes, in order.
pub open spec fn handler_run_actions(s: HandlerState, events: Seq<HandlerEvent>) -> Seq<
    HandlerAction,
>
    decreases events.len(),
{
    if events.len() == 0 {
        Seq::empty()
    } else {
        seq![handler_action(s, events[0])] + handler_run_actions(
            handler_next(s, events[0]),
            events.skip(1),
        )
    }
}

/// Termination is final: a terminated handler stays terminated and never
/// prescribes another action, whatever events follow.
pub proof fn lemma_terminated_is_final(events: Seq<HandlerEvent>)
    ensures
        handler_run(HandlerState::Terminated, events) == HandlerState::Terminated,
        forall|i: int|
            0 <= i < handler_run_actions(HandlerState::Terminated, events).len()
                ==> handler_run_actions(HandlerState::Terminated, events)[i]
                == HandlerAction::Idle,
    decreases events.len(),
{
    if events.len() > 0 {
        lemma_terminated_is_final(events.skip(1));
    }
}

/// A terminal message ends the handler without a reply: once a waiting
/// handler receives an `End`, `Quit` or `Shutdown` message, it terminates,
/// and no step — that one or any later one — prescribes a reply.
pub proof fn lemma_terminal_message_ends_handler(t: MessageType, later: Seq<HandlerEvent>)
    requires
        is_terminal(t),
    ensures
        handler_next(HandlerState::AwaitMessage, HandlerEvent::Received(t))
            == HandlerState::Terminated,
        handler_action(HandlerState::AwaitMessage, HandlerEvent::Received(t))
            != HandlerAction::Reply,
        handler_run(
            HandlerState::AwaitMessage,
            seq![HandlerEvent::Received(t)] + later,
        ) == HandlerState::Terminated,
        forall|i: int|
            0 <= i < handler_run_actions(
                HandlerState::AwaitMessage,
                seq![HandlerEvent::Received(t)] + later,
            ).len() ==> handler_run_actions(
                HandlerState::AwaitMessage,
                seq![HandlerEvent::Received(t)] + later,
            )[i] != HandlerAction::Reply,
{
    let events = seq![HandlerEvent::Received(t)] + later;
    assert(events[0] == HandlerEvent::Received(t));
    assert(events.skip(1) =~= later);
    lemma_terminated_is_final(later);
}

// ---------------------------------------------------------------------------
// Connector pumps: one step per queue item or wire event.
// ---------------------------------------------------------------------------

/// One step of the send pump. The pump has dequeued a message of type `t`
/// and handed it to the wire with outcome `send_ok`; the result says whether
/// the pump keeps running. It stops exactly on a failed send or after
/// sending an `End` message.
pub fn send_pump_step(t: MessageType, send_ok: bool) -> (cont: bool)
    ensures
        cont == (send_ok && t != MessageType::End),
{
    send_ok && t != MessageType::End
}

/// One step of the receive pump. The pump asked the wire for one message
/// (decoded into the inbound queue) with outcome `recv_ok`; it keeps running
/// exactly as long as receives succeed.
pub fn recv_pump_step(recv_ok: bool) -> (cont: bool)
    ensures
        cont == recv_ok,
{
    recv_ok
}

/// The messages the send pump hands to the wire, given the messages posted
/// to the outbound queue (in posting order) and the outcome each send
/// attempt would have. A failed send delivers nothing and stops the pump;
/// a delivered `End` stops it after delivery.
pub open spec fn wire_sequence(posted: Seq<Message>, send_ok: Seq<bool>) -> Seq<Message>
    decreases posted.len(),
{
    if posted.len() == 0 || send_ok.len() == 0 {
        Seq::empty()
    } else if !send_ok[0] {
        Seq::empty()
    } else if posted[0].mt == MessageType::End {
        seq![posted[0]]
    } else {
        seq![posted[0]] + wire_sequence(posted.skip(1), send_ok.skip(1))
    }
}

/// Posted order is delivery order: whatever the send outcomes, the messages
/// the send pump puts on the wire are an initial run of the posted sequence
/// — every delivered message is the posted message of the same rank, so no
/// reordering and no gaps ever occur on a single connector.
pub proof fn lemma_wire_sequence_is_ordered_prefix(posted: Seq<Message>, send_ok: Seq<bool>)
    ensures
        wire_sequence(posted, send_ok).len() <= posted.len(),
        forall|i: int|
            0 <= i < wire_sequence(posted, send_ok).len()
                ==> wire_sequence(posted, send_ok)[i] == posted[i],
    decreases posted.len(),
{
    if posted.len() == 0 || send_ok.len() == 0 {
    } else if !send_ok[0] {
    } else if posted[0].mt == MessageType::End {
    } else {
        lemma_wire_sequence_is_ordered_prefix(posted.skip(1), send_ok.skip(1));
        let w = wire_sequence(posted, send_ok);
        let wtail = wire_sequence(posted.skip(1), send_ok.skip(1));
        assert forall|i: int| 0 <= i < w.len() implies w[i] == posted[i] by {
            if i > 0 {
                assert(w[i] == wtail[i - 1]);
                assert(posted.skip(1)[i - 1] == posted[i]);
            }
        }
    }
}

/// The order law for one connector, end to end: whatever the send outcomes,
/// every frame the pump put on the wire decodes on the peer to exactly the
/// discriminant and payload of the posted message of the same rank — posted
/// messages reach the peer's processing layer in posting order, unchanged.
pub proof fn lemma_posted_messages_decode_in_order(posted: Seq<Message>, send_ok: Seq<bool>)
    requires
        forall|i: int| 0 <= i < posted.len() ==> posted[i].content@.len() < 0x1_0000_0000,
    ensures
        forall|i: int|
            0 <= i < wire_sequence(posted, send_ok).len()
                ==> crate::codec::decode_spec(
                crate::codec::encode_spec(wire_sequence(posted, send_ok)[i]),
            ) == Some((posted[i].mt, posted[i].content@)),
{
    lemma_wire_sequence_is_ordered_prefix(posted, send_ok);
    assert forall|i: int| 0 <= i < wire_sequence(posted, send_ok).len() implies crate::codec::decode_spec(
        crate::codec::encode_spec(wire_sequence(posted, send_ok)[i]),
    ) == Some((posted[i].mt, posted[i].content@)) by {
        crate::codec::lemma_codec_round_trip(posted[i]);
    }
}

// ---------------------------------------------------------------------------
// Listener: accept-loop and pool-worker decisions.
// ---------------------------------------------------------------------------

/// What the accept loop does after one accept call returns.
#[derive(Clone, Copy, Debug, PartialEq, Eq, Structural)]
pub enum AcceptAction {
    /// Hand the accepted socket to the thread pool.
    Dispatch,
    /// The accept call failed; ignore it and keep accepting.
    Ignore,
    /// The run flag was observed false: leave the loop and stop the pool.
    Exit,
}

/// The accept-loop decision.
pub open spec fn accept_decision(run: bool, accept_ok: bool) -> AcceptAction {
    if !accept_ok {
        AcceptAction::Ignore
    } else if !run {
        AcceptAction::Exit
    } else {
        AcceptAction::Dispatch
    }
}

/// One turn of the accept loop: `accept_ok` tells whether the blocking
/// accept call returned a socket, `run` is the run flag read after a
/// successful accept. A successful accept with the flag down is the one
/// point where the loop can observe shutdown and exits; an accept error is
/// never fatal; otherwise the socket is dispatched to the pool.
pub fn accept_step(run: bool, accept_ok: bool) -> (a: AcceptAction)
    ensures
        a == accept_decision(run, accept_ok),
        a == AcceptAction::Exit <==> (accept_ok && !run),
        a == AcceptAction::Dispatch <==> (accept_ok && run),
{
    if !accept_ok {
        AcceptAction::Ignore
    } else if !run {
        AcceptAction::Exit
    } else {
        AcceptAction::Dispatch
    }
}

/// One turn of a pool worker after it dequeued an accepted socket: with the
/// run flag down the worker exits without touching the socket; otherwise it
/// hands the socket to a connection handler.
pub fn worker_step(run: bool) -> (handle: bool)
    ensures
        handle == run,
{
    run
}

} // verus!
