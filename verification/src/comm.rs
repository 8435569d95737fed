//! A comm: one conversation between the front end and the back end, with a
//! queue of messages for each direction.

use crate::comm_channel::{CommChannelMsg, RpcError};
use crossbeam::channel::{Receiver, Sender};
use vstd::prelude::*;

verus! {

/// `crossbeam::channel::Sender`, the sending side of a channel. Other threads
/// use the channel at the same time, so nothing is said of what it holds.
#[verifier::external_type_specification]
#[verifier::external_body]
#[verifier::reject_recursive_types(T)]
pub struct ExSender<T>(Sender<T>);

/// `crossbeam::channel::Receiver`, the receiving side of a channel.
#[verifier::external_type_specification]
#[verifier::external_body]
#[verifier::reject_recursive_types(T)]
pub struct ExReceiver<T>(Receiver<T>);

/// `crossbeam::channel::unbounded`: makes a channel that holds any number of
/// messages, and returns its two sides. Nothing is claimed of them.
#[verifier::external_body]
pub(crate) fn unbounded<T>() -> (sides: (Sender<T>, Receiver<T>)) {
    crossbeam::channel::unbounded()
}

/// `Sender::send`: puts `msg` into the channel, after waiting for room where
/// the channel has a bound and is full. It fails only where every receiver is
/// gone, and then hands the message back as it was.
#[verifier::external_body]
pub(crate) fn send<T>(tx: &Sender<T>, msg: T) -> (sent: Result<(), T>)
    ensures
        sent matches Err(back) ==> back == msg,
{
    match tx.send(msg) {
        Ok(()) => Ok(()),
        Err(crossbeam::channel::SendError(back)) => Err(back),
    }
}

/// Who opened a comm, and so owns it.
#[derive(Clone, Copy, Debug, PartialEq, Eq, Structural)]
pub enum CommInitiator {
    /// The front end (the user interface) opened the comm.
    FrontEnd,
    /// The back end (the kernel) opened the comm.
    BackEnd,
}

/// What the back end does with the requests that arrive on a comm.
pub trait CommHandling: Send + Sync {
    /// Whether the handler can be called. Unless an implementation says
    /// otherwise, it can.
    open spec fn ready(&self) -> bool {
        true
    }

    /// Whether `outcome` is an answer that the handler may give to `message`.
    /// Unless an implementation says otherwise, any answer is.
    open spec fn answers(&self, message: CommChannelMsg, outcome: Result<
        Option<serde_json::Value>,
        RpcError,
    >) -> bool {
        true
    }

    /// Answers `message`: with the payload of the reply, with `None` where
    /// the message is no request, or with the error to reply with.
    fn handle_request(&self, message: CommChannelMsg) -> (outcome: Result<
        Option<serde_json::Value>,
        RpcError,
    >)
        requires
            self.ready(),
        ensures
            self.answers(message, outcome),
    ;
}

/// The handlers of one comm, as two functions: one for the events and one for
/// the requests of the front end.
pub struct CommHandlers<EH, RH> {
    /// Answers the payload of a request with the payload of the reply, or
    /// with the error to reply with.
    pub request_handler: Option<RH>,
    /// Takes the events of the front end. It is kept for the owner of the
    /// comm: the relay does not call it.
    pub event_handler: Option<EH>,
}

impl<EH, RH> CommHandlers<EH, RH> {
    /// The handlers that are made of the two functions, each of which may be
    /// left out.
    pub fn new(event_handler: Option<EH>, request_handler: Option<RH>) -> (handlers: Self)
        ensures
            handlers.event_handler == event_handler,
            handlers.request_handler == request_handler,
    {
        CommHandlers { event_handler, request_handler }
    }
}

impl<EH, RH> CommHandling for CommHandlers<EH, RH> where
    EH: Send + Sync,
    RH: Fn(serde_json::Value) -> Result<serde_json::Value, RpcError> + Send + Sync,
 {
    /// The request handler, where there is one, takes every payload.
    open spec fn ready(&self) -> bool {
        self.request_handler matches Some(handler) ==> forall|data: serde_json::Value|
            call_requires(handler, (data,))
    }

    /// A message that is no request gets `None`. A request gets what the
    /// request handler makes of its payload, or the error `Unhandled` where
    /// there is no request handler.
    open spec fn answers(&self, message: CommChannelMsg, outcome: Result<
        Option<serde_json::Value>,
        RpcError,
    >) -> bool {
        match message {
            CommChannelMsg::Rpc(_, data) => match self.request_handler {
                Some(handler) => match outcome {
                    Ok(Some(reply)) => call_ensures(handler, (data,), Ok(reply)),
                    Ok(None) => false,
                    Err(e) => call_ensures(handler, (data,), Err(e)),
                },
                None => outcome == Err::<Option<serde_json::Value>, RpcError>(RpcError::Unhandled),
            },
            _ => outcome == Ok::<Option<serde_json::Value>, RpcError>(None),
        }
    }

    fn handle_request(&self, message: CommChannelMsg) -> (outcome: Result<
        Option<serde_json::Value>,
        RpcError,
    >) {
        match message {
            CommChannelMsg::Rpc(_, data) => match &self.request_handler {
                Some(handler) => match handler(data) {
                    Ok(reply) => Ok(Some(reply)),
                    Err(e) => Err(e),
                },
                None => Err(RpcError::Unhandled),
            },
            _ => Ok(None),
        }
    }
}

/// A comm between the front end and the back end. `incoming` messages come
/// from the front end, `outgoing` messages go to it.
pub struct CommSocket {
    /// The comm's unique identifier.
    pub comm_id: String,
    /// The comm's name: free text that says what the comm is for.
    pub comm_name: String,
    /// Who opened the comm.
    pub initiator: CommInitiator,
    /// Where the messages for the front end are taken from.
    pub outgoing_rx: Receiver<CommChannelMsg>,
    /// Where the back end puts its messages for the front end.
    pub outgoing_tx: Sender<CommChannelMsg>,
    /// Where the messages of the front end are put.
    pub incoming_tx: Sender<CommChannelMsg>,
    /// Where the back end takes the messages of the front end from.
    pub incoming_rx: Receiver<CommChannelMsg>,
    /// What answers the requests of the front end, if anything does.
    pub handlers: Option<Box<dyn CommHandling>>,
}

impl CommSocket {
    /// Whether the handlers, where there are any, can be called.
    pub open spec fn wf(&self) -> bool {
        self.handlers matches Some(handlers) ==> handlers.ready()
    }

    /// Opens a comm, with a new queue for each direction.
    pub fn new(
        initiator: CommInitiator,
        comm_id: String,
        comm_name: String,
        handlers: Option<Box<dyn CommHandling>>,
    ) -> (socket: Self)
        requires
            handlers matches Some(h) ==> h.ready(),
        ensures
            socket.wf(),
            socket.initiator == initiator,
            socket.comm_id == comm_id,
            socket.comm_name == comm_name,
            socket.handlers == handlers,
    {
        let (outgoing_tx, outgoing_rx) = unbounded();
        let (incoming_tx, incoming_rx) = unbounded();
        CommSocket {
            comm_id,
            comm_name,
            initiator,
            outgoing_tx,
            outgoing_rx,
            incoming_tx,
            incoming_rx,
            handlers,
        }
    }
}

} // verus!
