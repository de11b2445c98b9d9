use rust_comm::message::MessageType;
use rust_comm::message::message_type_is_terminal;
use rust_comm::protocol::AcceptAction;
use rust_comm::protocol::HandlerAction;
use rust_comm::protocol::HandlerEvent;
use rust_comm::protocol::HandlerState;
use rust_comm::protocol::accept_step;
use rust_comm::protocol::handler_step;
use rust_comm::protocol::recv_pump_step;
use rust_comm::protocol::send_pump_step;
use rust_comm::protocol::worker_step;

#[test]
fn it_works() {
    assert_eq!(2 + 2, 4);
}

#[test]
fn terminal_types() {
    assert!(!message_type_is_terminal(MessageType::Data));
    assert!(message_type_is_terminal(MessageType::End));
    assert!(message_type_is_terminal(MessageType::Quit));
    assert!(message_type_is_terminal(MessageType::Shutdown));
}

#[test]
fn end_terminates_handler_without_reply() {
    let (s, a) = handler_step(
        HandlerState::AwaitMessage,
        HandlerEvent::Received(MessageType::End),
    );
    assert_eq!(s, HandlerState::Terminated);
    assert_eq!(a, HandlerAction::Idle);
}

#[test]
fn quit_terminates_handler_without_reply() {
    let (s, a) = handler_step(
        HandlerState::AwaitMessage,
        HandlerEvent::Received(MessageType::Quit),
    );
    assert_eq!(s, HandlerState::Terminated);
    assert_eq!(a, HandlerAction::Idle);
}

#[test]
fn shutdown_closes_both_directions_and_terminates() {
    let (s, a) = handler_step(
        HandlerState::AwaitMessage,
        HandlerEvent::Received(MessageType::Shutdown),
    );
    assert_eq!(s, HandlerState::Terminated);
    assert_eq!(a, HandlerAction::CloseSocket);
}

#[test]
fn data_message_is_processed_and_replied() {
    let (s, a) = handler_step(
        HandlerState::AwaitMessage,
        HandlerEvent::Received(MessageType::Data),
    );
    assert_eq!(s, HandlerState::Process);
    assert_eq!(a, HandlerAction::Reply);
}

#[test]
fn failed_receive_terminates_handler() {
    let (s, a) = handler_step(HandlerState::AwaitMessage, HandlerEvent::RecvFailed);
    assert_eq!(s, HandlerState::Terminated);
    assert_eq!(a, HandlerAction::Idle);
}

#[test]
fn failed_reply_send_is_not_terminal() {
    let (s, a) = handler_step(HandlerState::Process, HandlerEvent::ReplySent(false));
    assert_eq!(s, HandlerState::AwaitMessage);
    assert_eq!(a, HandlerAction::Idle);
    let (s_ok, a_ok) = handler_step(HandlerState::Process, HandlerEvent::ReplySent(true));
    assert_eq!(s_ok, HandlerState::AwaitMessage);
    assert_eq!(a_ok, HandlerAction::Idle);
}

#[test]
fn terminated_handler_never_acts_again() {
    let events = [
        HandlerEvent::RecvFailed,
        HandlerEvent::Received(MessageType::Data),
        HandlerEvent::Received(MessageType::Shutdown),
        HandlerEvent::ReplySent(true),
    ];
    for e in events {
        let (s, a) = handler_step(HandlerState::Terminated, e);
        assert_eq!(s, HandlerState::Terminated);
        assert_eq!(a, HandlerAction::Idle);
    }
}

#[test]
fn send_pump_stops_after_end_or_failed_send() {
    assert!(send_pump_step(MessageType::Data, true));
    assert!(!send_pump_step(MessageType::Data, false));
    assert!(!send_pump_step(MessageType::End, true));
    assert!(!send_pump_step(MessageType::End, false));
    assert!(send_pump_step(MessageType::Quit, true));
    assert!(send_pump_step(MessageType::Shutdown, true));
}

#[test]
fn recv_pump_stops_on_failed_receive() {
    assert!(recv_pump_step(true));
    assert!(!recv_pump_step(false));
}

#[test]
fn accept_loop_exits_on_the_accept_after_stop() {
    assert_eq!(accept_step(false, true), AcceptAction::Exit);
}

#[test]
fn accept_loop_dispatches_while_running() {
    assert_eq!(accept_step(true, true), AcceptAction::Dispatch);
}

#[test]
fn accept_errors_are_ignored() {
    assert_eq!(accept_step(true, false), AcceptAction::Ignore);
    assert_eq!(accept_step(false, false), AcceptAction::Ignore);
}

#[test]
fn pool_worker_exits_only_when_flag_is_down() {
    assert!(worker_step(true));
    assert!(!worker_step(false));
}
