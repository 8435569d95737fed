//! The relay of the comm whose life is that of the front end itself: it
//! passes the kernel's events on to the front end, and answers the requests
//! that the front end sends.
//!
//! The relay does not wait for its two sources. Whoever runs it waits, and
//! hands it whatever came first; the relay serves that and says whether it
//! wants more.

use crate::comm::{send, unbounded, CommHandling, CommSocket};
use crate::comm_channel::{CommChannelMsg, RpcError};
use crossbeam::channel::{Receiver, Sender};
use vstd::prelude::*;

verus! {

/// What the wait on the relay's two sources ended with.
#[derive(Debug, PartialEq)]
pub enum RelayInput {
    /// An event of the kernel, as the payload that the front end gets.
    Event(serde_json::Value),
    /// Nobody is left to send events.
    EventsClosed,
    /// A message from the front end.
    Message(CommChannelMsg),
    /// Nobody is left to send messages.
    IncomingClosed,
}

/// What the relay makes of an input.
#[derive(Debug, PartialEq)]
pub enum Turn {
    /// This message goes to the front end, and the relay goes on.
    Forward(CommChannelMsg),
    /// Nothing goes to the front end, and the relay goes on.
    Continue,
    /// The relay ends.
    Stop,
}

/// The message that tells the front end of an event.
pub open spec fn event_message(event: serde_json::Value) -> CommChannelMsg {
    CommChannelMsg::Data(event)
}

/// The reply to the request `id`, where `outcome` is what the handlers made of
/// it, or `None` where the comm has no handlers. A request that nothing
/// handled is answered with the error `Unhandled`.
pub open spec fn reply_of(
    id: String,
    outcome: Option<Result<Option<serde_json::Value>, RpcError>>,
) -> CommChannelMsg {
    CommChannelMsg::Reply(
        id,
        match outcome {
            Some(Ok(Some(payload))) => Ok(payload),
            Some(Err(e)) => Err(e),
            _ => Err(RpcError::Unhandled),
        },
    )
}

/// Makes the reply to the request `id` of what the handlers answered.
pub fn rpc_reply(
    id: String,
    outcome: Option<Result<Option<serde_json::Value>, RpcError>>,
) -> (reply: CommChannelMsg)
    ensures
        reply == reply_of(id, outcome),
{
    match outcome {
        Some(Ok(Some(payload))) => CommChannelMsg::Reply(id, Ok(payload)),
        Some(Err(e)) => CommChannelMsg::Reply(id, Err(e)),
        _ => CommChannelMsg::Reply(id, Err(RpcError::Unhandled)),
    }
}

/// Whether `turn` is what a message of the front end may lead to on a comm
/// with the given handlers. A request is answered by exactly one reply under
/// the id of the request: with what the handlers made of it, or with the
/// error `Unhandled` where the comm has none. The message that closes the
/// comm ends the relay. A payload needs no answer; neither does a reply,
/// which answers no request of this relay and is dropped.
pub open spec fn message_turn(
    handlers: Option<Box<dyn CommHandling>>,
    msg: CommChannelMsg,
    turn: Turn,
) -> bool {
    match msg {
        CommChannelMsg::Rpc(id, _) => match handlers {
            Some(handlers) => exists|outcome: Result<Option<serde_json::Value>, RpcError>|
                handlers.answers(msg, outcome) && turn == Turn::Forward(
                    reply_of(id, Some(outcome)),
                ),
            None => turn == Turn::Forward(reply_of(id, None)),
        },
        CommChannelMsg::Close => turn == Turn::Stop,
        _ => turn == Turn::Continue,
    }
}

/// Whether `turn` is what `input` may lead to. A relay that has ended looks
/// at no input. An event goes to the front end as a payload; a message of
/// the front end is answered as `message_turn` says; the loss of a source
/// ends the relay.
pub open spec fn input_turn(
    closed: bool,
    handlers: Option<Box<dyn CommHandling>>,
    input: RelayInput,
    turn: Turn,
) -> bool {
    if closed {
        turn == Turn::Stop
    } else {
        match input {
            RelayInput::Event(event) => turn == Turn::Forward(event_message(event)),
            RelayInput::Message(msg) => message_turn(handlers, msg, turn),
            _ => turn == Turn::Stop,
        }
    }
}

/// Whether `input` ends the relay: the front end closed the comm, or one of
/// the two sources is gone.
pub open spec fn ends(input: RelayInput) -> bool {
    input is EventsClosed || input is IncomingClosed || input == RelayInput::Message(
        CommChannelMsg::Close,
    )
}

/// Whether the relay has ended after it was handed `inputs`, one after the
/// other, given whether it had ended before.
pub open spec fn closed_after(closed: bool, inputs: Seq<RelayInput>) -> bool
    decreases inputs.len(),
{
    if inputs.len() == 0 {
        closed
    } else {
        closed_after(closed, inputs.drop_last()) || ends(inputs.last())
    }
}

/// What the relay did with an input.
#[derive(Debug, PartialEq)]
pub struct Served {
    /// Whether the relay goes on.
    pub proceed: bool,
    /// The message that was due to the front end and could not be sent,
    /// because nobody is left to take it.
    pub undelivered: Option<CommChannelMsg>,
}

/// The relay between the kernel and the front end.
pub struct PositronFrontend {
    /// The comm that the relay serves.
    pub comm: CommSocket,
    /// Where the events of the kernel arrive.
    pub event_rx: Receiver<serde_json::Value>,
    /// Whether the relay has ended. It does not begin again.
    pub closed: bool,
}

impl PositronFrontend {
    /// Makes the relay for `comm`, and the sender on which the kernel reports
    /// its events to it.
    pub fn start(comm: CommSocket) -> (started: (Self, Sender<serde_json::Value>))
        requires
            comm.wf(),
        ensures
            started.0.comm == comm,
            !started.0.closed,
    {
        let (event_tx, event_rx) = unbounded();
        (PositronFrontend { comm, event_rx, closed: false }, event_tx)
    }

    /// Sends the front end the message that tells it of `event`. Where the
    /// message could not be sent, because nobody is left to take it, it is
    /// handed back.
    pub fn dispatch_event(&self, event: serde_json::Value) -> (sent: Result<(), CommChannelMsg>)
        ensures
            sent matches Err(back) ==> back == event_message(event),
    {
        send(&self.comm.outgoing_tx, CommChannelMsg::Data(event))
    }

    /// Decides what a message of the front end leads to, and sends nothing.
    pub fn handle_comm_message(&self, msg: CommChannelMsg) -> (turn: Turn)
        requires
            self.comm.wf(),
        ensures
            message_turn(self.comm.handlers, msg, turn),
    {
        match msg {
            CommChannelMsg::Rpc(id, data) => {
                let outcome = match &self.comm.handlers {
                    Some(handlers) => Some(
                        handlers.handle_request(CommChannelMsg::Rpc(id.clone(), data)),
                    ),
                    None => None,
                };
                Turn::Forward(rpc_reply(id, outcome))
            },
            CommChannelMsg::Close => Turn::Stop,
            _ => Turn::Continue,
        }
    }

    /// Decides what an input of the relay's loop leads to, and sends nothing.
    pub fn turn(&self, input: RelayInput) -> (turn: Turn)
        requires
            self.comm.wf(),
        ensures
            input_turn(self.closed, self.comm.handlers, input, turn),
            turn is Stop <==> self.closed || ends(input),
    {
        if self.closed {
            return Turn::Stop;
        }
        match input {
            RelayInput::Event(event) => Turn::Forward(CommChannelMsg::Data(event)),
            RelayInput::Message(msg) => self.handle_comm_message(msg),
            _ => Turn::Stop,
        }
    }

    /// Serves one input of the relay's loop: sends the front end what `turn`
    /// says is due to it, and ends the relay where `turn` says so. Once the
    /// relay has ended it looks at no input any more.
    pub fn execution_thread(&mut self, input: RelayInput) -> (served: Served)
        requires
            old(self).comm.wf(),
        ensures
            served.proceed == !(old(self).closed || ends(input)),
            final(self).closed == (old(self).closed || ends(input)),
            final(self).comm == old(self).comm,
            final(self).event_rx == old(self).event_rx,
            served.undelivered matches Some(back) ==> input_turn(
                old(self).closed,
                old(self).comm.handlers,
                input,
                Turn::Forward(back),
            ),
    {
        match self.turn(input) {
            Turn::Forward(msg) => {
                let sent = send(&self.comm.outgoing_tx, msg);
                Served { proceed: true, undelivered: sent.err() }
            },
            Turn::Continue => Served { proceed: true, undelivered: None },
            Turn::Stop => {
                self.closed = true;
                Served { proceed: false, undelivered: None }
            },
        }
    }
}

/// What was closed stays closed: once an input has ended the relay, it has
/// ended after every longer run of inputs, whatever they hold. So the relay
/// looks at nothing that arrives after the comm was closed.
pub proof fn lemma_closed_is_final(closed: bool, inputs: Seq<RelayInput>, k: int, j: int)
    requires
        0 <= k < j <= inputs.len(),
        ends(inputs[k]),
    ensures
        closed_after(closed, inputs.take(j)),
    decreases j,
{
    let upto = inputs.take(j);
    assert(upto.last() == inputs[j - 1]);
    if k < j - 1 {
        assert(upto.drop_last() =~= inputs.take(j - 1));
        lemma_closed_is_final(closed, inputs, k, j - 1);
    }
}

} // verus!
