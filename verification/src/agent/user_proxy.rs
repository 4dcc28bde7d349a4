//! Agent that stands in for the user: it drives the conversation and answers
//! every reply request from its default reply source.

use crate::agent::registry::ReplyTriggerRegistry;
use crate::agent::routing;
use crate::agent::{ended, yielded, Agent, AgentCtx, AgentMessage, Delivery};
use crate::config::{plain_settings, AgentSettings, Config};
use crate::error::AgentError;
use crate::log::{recorded, ConversationLog};
use crate::protocol::{
    after_reset, default_received, default_reply, default_turn, fresh, sent, ActorState,
};
use vstd::prelude::*;

verus! {

/// The agent in the user's seat.
pub struct UserProxy {
    /// The identity other agents reach this agent by.
    pub ctx: AgentCtx,
    /// The language-model endpoints the agent was given. The routing never
    /// looks at them.
    pub config_list: Vec<Config>,
    /// For each counterpart, the payloads exchanged with it.
    pub messages: ConversationLog,
    /// What the agent was built with; `max_consecutive_auto_reply` is the
    /// ceiling on its automatic replies.
    pub settings: AgentSettings,
    /// The automatic replies sent, to whomever, since the agent was built or
    /// last reset.
    pub consecutive_auto_replies: u32,
}

impl View for UserProxy {
    type V = ActorState;

    open spec fn view(&self) -> ActorState {
        routing::state_of(
            self.ctx,
            self.messages,
            self.consecutive_auto_replies,
            self.settings.max_consecutive_auto_reply,
        )
    }
}

impl UserProxy {
    /// What a turn leaves alone: who the agent is and what it was built with.
    pub open spec fn same_setup(&self, other: &UserProxy) -> bool {
        &&& self.ctx == other.ctx
        &&& self.config_list == other.config_list
        &&& self.settings == other.settings
    }

    /// A user proxy called `name` with the default settings, which has
    /// exchanged nothing yet.
    pub fn new(name: &str, config_list: Vec<Config>) -> (agent: Self)
        ensures
            agent@ == fresh(name@, plain_settings().max_consecutive_auto_reply),
            agent.config_list == config_list,
            agent.settings@ == plain_settings(),
    {
        Self::with_settings(name, config_list, AgentSettings::default())
    }

    /// A user proxy called `name` with the given settings, which has
    /// exchanged nothing yet.
    pub fn with_settings(name: &str, config_list: Vec<Config>, settings: AgentSettings) -> (agent: Self)
        ensures
            agent@ == fresh(name@, settings.max_consecutive_auto_reply as nat),
            agent.config_list == config_list,
            agent.settings == settings,
    {
        UserProxy {
            ctx: AgentCtx::new(name),
            config_list,
            messages: ConversationLog::new(),
            settings,
            consecutive_auto_replies: 0,
        }
    }

    /// The very first message of the chat: sent like any other.
    pub fn initiate_chat(&mut self, recipient: AgentCtx, message: String, request_reply: bool) -> (delivery:
        Delivery)
        ensures
            ended(final(self)@, Ok(Some(delivery))) == sent(old(self)@, recipient@, message@, request_reply),
            final(self).same_setup(old(self)),
    {
        routing::send(&self.ctx, &mut self.messages, recipient, message, request_reply)
    }

    /// Stores a message exchanged with `recipient` in the log kept for it.
    pub fn process_received_message(&mut self, recipient: &AgentCtx, message: String)
        ensures
            final(self)@ == (ActorState {
                log: recorded(old(self)@.log, recipient@, message@),
                ..old(self)@
            }),
            final(self).same_setup(old(self)),
    {
        routing::process_received_message(&mut self.messages, recipient, message);
    }

    /// Clears the conversational state.
    pub fn reset(&mut self)
        ensures
            final(self)@ == after_reset(old(self)@),
            final(self).same_setup(old(self)),
    {
        routing::reset(&mut self.messages, &mut self.consecutive_auto_replies);
    }
}

impl Agent for UserProxy {
    /// A turn of the user proxy is the turn of an actor without callbacks:
    /// every reply comes from the default reply source, and the turn changes
    /// neither who the agent is nor what it was built with.
    open spec fn turned(
        &self,
        message: AgentMessage,
        after: &Self,
        turn_end: Result<Option<Delivery>, AgentError>,
    ) -> bool {
        &&& ended(after@, turn_end) == default_turn(self@, message@)
        &&& after.same_setup(self)
    }

    /// One turn of the run loop, in which every reply comes from the default
    /// reply source: the turn that `turned` describes.
    fn handle(&mut self, message: AgentMessage) -> (turn_end: Result<Option<Delivery>, AgentError>) {
        let mut registry = ReplyTriggerRegistry::new();
        routing::handle(
            &self.ctx,
            &mut self.messages,
            &mut registry,
            &mut self.consecutive_auto_replies,
            self.settings.max_consecutive_auto_reply,
            message,
        )
    }

    /// The default reply source: a fixed placeholder payload.
    fn generate_reply(&self) -> (answer: Option<String>)
        ensures
            yielded(answer) == Some(default_reply()),
    {
        routing::default_answer()
    }

    /// Sends a message to another agent: the payload is logged under the
    /// recipient, and the delivery for the recipient's mailbox comes back.
    fn send(&mut self, recipient: AgentCtx, message: String, request_reply: bool) -> (delivery: Delivery)
        ensures
            ended(final(self)@, Ok(Some(delivery))) == sent(old(self)@, recipient@, message@, request_reply),
            final(self).same_setup(old(self)),
    {
        routing::send(&self.ctx, &mut self.messages, recipient, message, request_reply)
    }

    /// Once a message is received, sends the default reply to the sender, or
    /// stops: no reply is sent when none was asked for, and none when the
    /// ceiling is reached, which is reported as `ReplyCeilingExceeded`.
    fn receive(&mut self, recipient: AgentCtx, message: String, request_reply: bool) -> (turn_end: Result<
        Option<Delivery>,
        AgentError,
    >)
        ensures
            ended(final(self)@, turn_end) == default_received(
                old(self)@,
                recipient@,
                message@,
                request_reply,
            ),
            final(self).same_setup(old(self)),
    {
        let mut registry = ReplyTriggerRegistry::new();
        routing::receive(
            &self.ctx,
            &mut self.messages,
            &mut registry,
            &mut self.consecutive_auto_replies,
            self.settings.max_consecutive_auto_reply,
            recipient,
            message,
            request_reply,
        )
    }
}

} // verus!
