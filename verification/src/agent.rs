//! The agents: how they are addressed, the envelopes they exchange, and the
//! interfaces a custom agent implements.

pub mod assistant;
pub mod registry;
pub mod routing;
pub mod run_loop;
pub mod user_proxy;

use crate::error::AgentError;
use crate::log::ConversationLog;
use crate::protocol::{ActorState, Envelope, Outcome, Parcel};
use vstd::prelude::*;

verus! {

/// The public face of an agent: the name other agents address it by. The
/// runtime keeps the sending half of the agent's mailbox under this name.
#[derive(Debug, PartialEq, Eq, Hash)]
pub struct AgentCtx {
    pub name: String,
}

impl View for AgentCtx {
    type V = Seq<char>;

    open spec fn view(&self) -> Seq<char> {
        self.name@
    }
}

impl Clone for AgentCtx {
    fn clone(&self) -> (copy: Self)
        ensures
            copy == *self,
    {
        AgentCtx { name: self.name.clone() }
    }
}

impl AgentCtx {
    /// The identity of the agent called `name`.
    pub fn new(name: &str) -> (ctx: Self)
        ensures
            ctx@ == name@,
    {
        AgentCtx { name: name.to_owned() }
    }
}

/// What makes an assistant answer with a registered callback instead of the
/// default reply source.
#[derive(Debug, PartialEq, Eq, Hash)]
pub enum AgentReplyTrigger {
    /// Triggered by the name of the agent that asks for the reply.
    Name(String),
}

impl View for AgentReplyTrigger {
    type V = Seq<char>;

    open spec fn view(&self) -> Seq<char> {
        match *self {
            AgentReplyTrigger::Name(name) => name@,
        }
    }
}

impl Clone for AgentReplyTrigger {
    fn clone(&self) -> (copy: Self)
        ensures
            copy == *self,
    {
        match self {
            AgentReplyTrigger::Name(name) => AgentReplyTrigger::Name(name.clone()),
        }
    }
}

impl AgentReplyTrigger {
    /// The name of the agent whose reply requests fire this trigger.
    pub fn name(&self) -> (name: &String)
        ensures
            name@ == self@,
    {
        match self {
            AgentReplyTrigger::Name(name) => name,
        }
    }

    /// Whether a reply request from `sender` fires this trigger: its name is
    /// exactly the trigger's.
    pub fn fires_for(&self, sender: &AgentCtx) -> (fires: bool)
        ensures
            fires == (self@ == sender@),
    {
        *self.name() == sender.name
    }
}

/// Messages exchanged between agents.
///
/// `recipient` is always the counterpart of the conversation, the agent a
/// reply goes to: in `InitiateChat` and `Send` the agent the payload is for,
/// in `Receive` the agent it came from.
#[derive(Debug, PartialEq, Eq)]
pub enum AgentMessage {
    InitiateChat { recipient: AgentCtx, message: String, request_reply: bool },
    Send { recipient: AgentCtx, message: String, request_reply: bool },
    Receive { recipient: AgentCtx, message: String, request_reply: bool },
    Reset,
}

impl View for AgentMessage {
    type V = Envelope;

    open spec fn view(&self) -> Envelope {
        match *self {
            AgentMessage::InitiateChat { recipient, message, request_reply } => Envelope::InitiateChat {
                recipient: recipient@,
                message: message@,
                request_reply,
            },
            AgentMessage::Send { recipient, message, request_reply } => Envelope::Send {
                recipient: recipient@,
                message: message@,
                request_reply,
            },
            AgentMessage::Receive { recipient, message, request_reply } => Envelope::Receive {
                recipient: recipient@,
                message: message@,
                request_reply,
            },
            AgentMessage::Reset => Envelope::Reset,
        }
    }
}

impl Clone for AgentMessage {
    fn clone(&self) -> (copy: Self)
        ensures
            copy == *self,
    {
        match self {
            AgentMessage::InitiateChat { recipient, message, request_reply } => AgentMessage::InitiateChat {
                recipient: recipient.clone(),
                message: message.clone(),
                request_reply: *request_reply,
            },
            AgentMessage::Send { recipient, message, request_reply } => AgentMessage::Send {
                recipient: recipient.clone(),
                message: message.clone(),
                request_reply: *request_reply,
            },
            AgentMessage::Receive { recipient, message, request_reply } => AgentMessage::Receive {
                recipient: recipient.clone(),
                message: message.clone(),
                request_reply: *request_reply,
            },
            AgentMessage::Reset => AgentMessage::Reset,
        }
    }
}

/// An envelope together with the agent whose mailbox it goes into. Handing it
/// to that mailbox is the runtime's part.
#[derive(Debug, PartialEq, Eq)]
pub struct Delivery {
    pub to: AgentCtx,
    pub envelope: AgentMessage,
}

impl View for Delivery {
    type V = Parcel;

    open spec fn view(&self) -> Parcel {
        Parcel { to: self.to@, envelope: self.envelope@ }
    }
}

impl Clone for Delivery {
    fn clone(&self) -> (copy: Self)
        ensures
            copy == *self,
    {
        Delivery { to: self.to.clone(), envelope: self.envelope.clone() }
    }
}

/// What a turn of the run loop hands to the runtime, as the protocol sees it.
pub open spec fn handed_over(result: Result<Option<Delivery>, AgentError>) -> Result<
    Option<Parcel>,
    AgentError,
> {
    match result {
        Ok(Some(delivery)) => Ok(Some(delivery@)),
        Ok(None) => Ok(None),
        Err(error) => Err(error),
    }
}

/// A turn's end as the protocol sees it: the state the actor is left in, with
/// what is handed to the runtime.
pub open spec fn ended(state: ActorState, result: Result<Option<Delivery>, AgentError>) -> Outcome {
    Outcome { state, result: handed_over(result) }
}

/// The payload a reply source yielded, as the protocol sees it.
pub open spec fn yielded(answer: Option<String>) -> Option<Seq<char>> {
    match answer {
        Some(text) => Some(text@),
        None => None,
    }
}

/// Where a reply comes from.
#[derive(Debug, Clone, Copy, PartialEq, Eq, Structural)]
pub enum ReplySource {
    /// The agent's own default generator.
    Default,
    /// The callback registered at this place in the trigger registry.
    Registered(usize),
}

/// A custom reply: what an assistant runs, in place of its default reply
/// source, when the trigger it was registered for asks for a reply.
///
/// The callback is handed the assistant's conversation log, which it may read
/// and change. If it yields a payload, the run loop sends that payload back to
/// the agent that asked; the callback itself sends nothing.
pub trait ReplyCallback: Send {
    /// Produces the reply, or nothing if the conversation is to end here.
    fn reply(&mut self, log: &mut ConversationLog) -> Option<String>;
}

/// All agents implement this trait. A turn of the run loop is one call of
/// `handle`; the loop itself, and the mailbox it consumes, belong to the
/// runtime.
pub trait Agent {
    /// What a turn of this kind of agent is: whether an agent that was `self`
    /// and took its turn on `message` may be `after` now and have ended the
    /// turn in `turn_end`. Each kind of agent says this for itself; an agent
    /// that says nothing promises nothing.
    open spec fn turned(
        &self,
        message: AgentMessage,
        after: &Self,
        turn_end: Result<Option<Delivery>, AgentError>,
    ) -> bool {
        true
    }

    /// Takes one envelope out of the mailbox through its turn. What comes back
    /// is for the runtime: a delivery to make, nothing, or an error to report.
    fn handle(&mut self, message: AgentMessage) -> (turn_end: Result<Option<Delivery>, AgentError>)
        ensures
            old(self).turned(message, final(self), turn_end),
    ;

    /// The default reply source.
    fn generate_reply(&self) -> Option<String>;

    /// Sends a message to another agent.
    fn send(&mut self, recipient: AgentCtx, message: String, request_reply: bool) -> Delivery;

    /// Takes in a message from another agent, and replies to it if a reply
    /// was asked for.
    fn receive(&mut self, recipient: AgentCtx, message: String, request_reply: bool) -> Result<
        Option<Delivery>,
        AgentError,
    >;
}

/// Trait for creating custom agents derived from the assistant.
pub trait AssistantAgent {
    /// Registers `function` as the reply source for `trigger`. A trigger has
    /// at most one callback: registering a second one is refused with
    /// `DuplicateTrigger`.
    fn register_repply(&mut self, trigger: AgentReplyTrigger, function: Box<dyn ReplyCallback>) -> Result<
        (),
        AgentError,
    >;
}

} // verus!
