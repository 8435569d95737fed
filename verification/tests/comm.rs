use ark::comm::{CommHandlers, CommHandling, CommInitiator, CommSocket};
use ark::comm_channel::{CommChannelMsg, RpcError};
use ark::comm_msg::CommMsg;
use serde_json::Value;

type EventFn = fn(Value);
type RequestFn = fn(Value) -> Result<Value, RpcError>;

fn echo(data: Value) -> Result<Value, RpcError> {
    Ok(data)
}

fn text(s: &str) -> Value {
    Value::String(s.to_string())
}

#[test]
fn comm_msg_is_named_comm_msg_on_the_wire() {
    assert_eq!(CommMsg::message_type(), "comm_msg");
}

#[test]
fn comm_msg_keeps_its_parts() {
    let msg = CommMsg::new("c1".to_string(), text("payload"));
    assert_eq!(msg.comm_id, "c1");
    assert_eq!(msg.data, text("payload"));
}

#[test]
fn new_socket_keeps_its_identity() {
    let socket = CommSocket::new(
        CommInitiator::FrontEnd,
        "test-help-comm-id".to_string(),
        "positron.help".to_string(),
        None,
    );
    assert_eq!(socket.comm_id, "test-help-comm-id");
    assert_eq!(socket.comm_name, "positron.help");
    assert_eq!(socket.initiator, CommInitiator::FrontEnd);
    assert!(socket.handlers.is_none());

    let handlers: Box<dyn CommHandling> =
        Box::new(CommHandlers::<EventFn, RequestFn>::new(None, Some(echo)));
    let socket =
        CommSocket::new(CommInitiator::BackEnd, "c2".to_string(), "x".to_string(), Some(handlers));
    assert_eq!(socket.initiator, CommInitiator::BackEnd);
    assert!(socket.handlers.is_some());
}

#[test]
fn new_socket_has_two_empty_queues() {
    let socket =
        CommSocket::new(CommInitiator::FrontEnd, "c1".to_string(), "n".to_string(), None);
    assert!(socket.incoming_rx.try_recv().is_err());
    assert!(socket.outgoing_rx.try_recv().is_err());
    assert!(socket.incoming_rx.is_empty());
    assert!(socket.outgoing_rx.is_empty());
}

#[test]
fn each_queue_delivers_in_order_to_its_own_receiver() {
    let socket =
        CommSocket::new(CommInitiator::FrontEnd, "c1".to_string(), "n".to_string(), None);
    socket.incoming_tx.send(CommChannelMsg::Data(text("in-1"))).unwrap();
    socket.incoming_tx.send(CommChannelMsg::Data(text("in-2"))).unwrap();
    socket.outgoing_tx.send(CommChannelMsg::Data(text("out-1"))).unwrap();
    assert_eq!(socket.incoming_rx.try_recv(), Ok(CommChannelMsg::Data(text("in-1"))));
    assert_eq!(socket.incoming_rx.try_recv(), Ok(CommChannelMsg::Data(text("in-2"))));
    assert!(socket.incoming_rx.try_recv().is_err());
    assert_eq!(socket.outgoing_rx.try_recv(), Ok(CommChannelMsg::Data(text("out-1"))));
    assert!(socket.outgoing_rx.try_recv().is_err());
}

#[test]
fn queues_hold_any_number_of_messages() {
    let socket =
        CommSocket::new(CommInitiator::FrontEnd, "c1".to_string(), "n".to_string(), None);
    for i in 0..1000 {
        socket.incoming_tx.send(CommChannelMsg::Rpc(format!("r{}", i), Value::Null)).unwrap();
    }
    assert_eq!(socket.incoming_rx.len(), 1000);
}

#[test]
fn handlers_keep_what_they_were_made_of() {
    let handlers = CommHandlers::<EventFn, RequestFn>::new(None, Some(echo));
    assert!(handlers.event_handler.is_none());
    assert!(handlers.request_handler.is_some());
    let none = CommHandlers::<EventFn, RequestFn>::new(None, None);
    assert!(none.event_handler.is_none());
    assert!(none.request_handler.is_none());
}

#[test]
fn handlers_answer_a_request_with_what_the_request_handler_returns() {
    let handlers = CommHandlers::<EventFn, RequestFn>::new(None, Some(echo));
    let outcome = handlers.handle_request(CommChannelMsg::Rpc("r1".to_string(), text("x")));
    assert_eq!(outcome, Ok(Some(text("x"))));
}

#[test]
fn handlers_pass_on_the_error_of_the_request_handler() {
    let handlers = CommHandlers::<EventFn, _>::new(
        None,
        Some(|_data: Value| -> Result<Value, RpcError> {
            Err(RpcError::Malformed("no topic".to_string()))
        }),
    );
    let outcome = handlers.handle_request(CommChannelMsg::Rpc("r1".to_string(), Value::Null));
    assert_eq!(outcome, Err(RpcError::Malformed("no topic".to_string())));
}

#[test]
fn handlers_without_request_handler_leave_a_request_unhandled() {
    let handlers = CommHandlers::<EventFn, RequestFn>::new(None, None);
    let outcome = handlers.handle_request(CommChannelMsg::Rpc("r1".to_string(), Value::Null));
    assert_eq!(outcome, Err(RpcError::Unhandled));
}

#[test]
fn handlers_do_not_handle_what_is_no_request() {
    let handlers = CommHandlers::<EventFn, RequestFn>::new(None, Some(echo));
    assert_eq!(handlers.handle_request(CommChannelMsg::Data(text("x"))), Ok(None));
    assert_eq!(handlers.handle_request(CommChannelMsg::Close), Ok(None));
    assert_eq!(
        handlers.handle_request(CommChannelMsg::Reply("r".to_string(), Ok(Value::Null))),
        Ok(None)
    );
}

struct Refuses;

impl CommHandling for Refuses {
    fn handle_request(&self, message: CommChannelMsg) -> Result<Option<Value>, RpcError> {
        match message {
            CommChannelMsg::Rpc(id, _) => Err(RpcError::Failed(format!("refused {}", id))),
            _ => Ok(None),
        }
    }
}

#[test]
fn handlers_of_another_type_can_stand_behind_a_socket() {
    let handlers: Box<dyn CommHandling> = Box::new(Refuses);
    let socket =
        CommSocket::new(CommInitiator::BackEnd, "c3".to_string(), "x".to_string(), Some(handlers));
    let outcome = socket
        .handlers
        .as_ref()
        .unwrap()
        .handle_request(CommChannelMsg::Rpc("r4".to_string(), Value::Null));
    assert_eq!(outcome, Err(RpcError::Failed("refused r4".to_string())));
}
