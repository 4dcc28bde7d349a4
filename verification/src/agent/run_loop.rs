//! The decisions of an agent's run loop.
//!
//! The runtime owns the mailbox. It tells the loop what happened, and the loop
//! says what to do next: receive the next envelope, deliver something, report
//! an error, or stop. The loop stops when the mailbox has come to its end, and
//! for no other reason.

use crate::agent::{handed_over, Agent, AgentMessage, Delivery};
use crate::error::AgentError;
use crate::protocol::{Envelope, Parcel};
use vstd::prelude::*;

verus! {

/// What the runtime tells the run loop.
#[derive(Debug, PartialEq, Eq)]
pub enum Event {
    /// An envelope was taken out of the mailbox.
    Arrived(AgentMessage),
    /// Every sender of the mailbox is gone and the mailbox is empty.
    EndOfStream,
    /// A delivery could not be made: the mailbox it was for is closed.
    Undeliverable(Delivery),
}

/// What the run loop asks of the runtime.
#[derive(Debug, PartialEq, Eq)]
pub enum Action {
    /// Put the envelope into the mailbox of the agent it is addressed to,
    /// waiting for room if the mailbox is full.
    Deliver(Delivery),
    /// Report the error to whoever started the agent. The loop goes on.
    Report(AgentError),
    /// Nothing to do but to receive the next envelope.
    Wait,
    /// Leave the loop.
    Stop,
}

/// An event as the protocol sees it.
pub enum Signal {
    Arrived(Envelope),
    EndOfStream,
    Undeliverable(Parcel),
}

/// An action as the protocol sees it.
pub enum Request {
    Deliver(Parcel),
    Report(AgentError),
    Wait,
    Stop,
}

impl View for Event {
    type V = Signal;

    open spec fn view(&self) -> Signal {
        match *self {
            Event::Arrived(envelope) => Signal::Arrived(envelope@),
            Event::EndOfStream => Signal::EndOfStream,
            Event::Undeliverable(delivery) => Signal::Undeliverable(delivery@),
        }
    }
}

impl View for Action {
    type V = Request;

    open spec fn view(&self) -> Request {
        match *self {
            Action::Deliver(delivery) => Request::Deliver(delivery@),
            Action::Report(error) => Request::Report(error),
            Action::Wait => Request::Wait,
            Action::Stop => Request::Stop,
        }
    }
}

/// What the loop asks for after a turn: the delivery the turn handed over,
/// the report of the error it ended in, or the next envelope.
pub open spec fn request_after(result: Result<Option<Parcel>, AgentError>) -> Request {
    match result {
        Ok(Some(parcel)) => Request::Deliver(parcel),
        Ok(None) => Request::Wait,
        Err(error) => Request::Report(error),
    }
}

/// What the loop asks for after a turn that ended in `turn_end`. A turn never
/// ends the loop, whatever it ended in.
pub fn after_turn(turn_end: Result<Option<Delivery>, AgentError>) -> (action: Action)
    ensures
        action@ == request_after(handed_over(turn_end)),
        action != Action::Stop,
{
    match turn_end {
        Ok(Some(delivery)) => Action::Deliver(delivery),
        Ok(None) => Action::Wait,
        Err(error) => Action::Report(error),
    }
}

/// One step of the run loop of `agent`.
///
/// An envelope that arrived is taken through the agent's turn, once, and the
/// loop asks for what the turn ended in. At the end of the stream the loop
/// stops, and it stops on nothing else. A delivery that could not be made is
/// dropped: the agent is left as it is, the closed mailbox is reported, and
/// the loop goes on.
pub fn step<A: Agent>(agent: &mut A, event: Event) -> (action: Action)
    ensures
        event matches Event::Arrived(envelope) ==> exists|turn_end: Result<Option<Delivery>, AgentError>|
            #[trigger] old(agent).turned(envelope, final(agent), turn_end) && action@ == request_after(
                handed_over(turn_end),
            ),
        action == Action::Stop <==> event == Event::EndOfStream,
        event is Undeliverable ==> action == Action::Report(AgentError::MailboxClosed),
        !(event is Arrived) ==> *final(agent) == *old(agent),
{
    match event {
        Event::Arrived(envelope) => {
            let turn_end = agent.handle(envelope);
            let ghost ended_in = turn_end;
            let action = after_turn(turn_end);
            assert(old(agent).turned(envelope, agent, ended_in) && action@ == request_after(
                handed_over(ended_in),
            ));
            action
        },
        Event::EndOfStream => Action::Stop,
        Event::Undeliverable(_) => Action::Report(AgentError::MailboxClosed),
    }
}

} // verus!
