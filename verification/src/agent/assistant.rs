//! Assistant agent: routes like every agent, and lets callbacks be registered
//! that answer chosen agents in place of the default reply source.

use crate::agent::registry::{unambiguous, ReplyTriggerRegistry};
use crate::agent::routing;
use crate::agent::{
    ended, yielded, Agent, AgentCtx, AgentMessage, AgentReplyTrigger, AssistantAgent, Delivery,
    ReplyCallback, ReplySource,
};
use crate::config::{assistant_settings, AgentSettings, Config};
use crate::error::AgentError;
use crate::log::ConversationLog;
use crate::protocol::{
    after_reset, answered_by_default, default_received, default_reply, default_turn, fresh, received,
    selected, sent, turn, ActorState,
};
use vstd::prelude::*;

verus! {

/// The agent that is expected to do the work, and to host custom replies.
pub struct Assistant {
    /// The identity other agents reach this agent by.
    pub ctx: AgentCtx,
    /// The language-model endpoints the agent was given. The routing never
    /// looks at them.
    pub config_list: Vec<Config>,
    /// For each counterpart, the payloads exchanged with it.
    pub messages: ConversationLog,
    /// What the agent was built with; `max_consecutive_auto_reply` is the
    /// ceiling on its automatic replies.
    pub settings: AgentSettings,
    /// The automatic replies sent, to whomever, since the agent was built or
    /// last reset.
    pub consecutive_auto_replies: u32,
    /// The callbacks that answer in place of the default reply source.
    pub reply_fn_list: ReplyTriggerRegistry,
}

impl View for Assistant {
    type V = ActorState;

    open spec fn view(&self) -> ActorState {
        routing::state_of(
            self.ctx,
            self.messages,
            self.consecutive_auto_replies,
            self.settings.max_consecutive_auto_reply,
        )
    }
}

impl Assistant {
    /// What a turn leaves alone: who the agent is, what it was built with,
    /// and which triggers have a callback.
    pub open spec fn same_setup(&self, other: &Assistant) -> bool {
        &&& self.ctx == other.ctx
        &&& self.config_list == other.config_list
        &&& self.settings == other.settings
        &&& self.reply_fn_list@ == other.reply_fn_list@
    }

    /// An assistant called `name` with the assistant's default settings,
    /// which has exchanged nothing yet and has no callbacks.
    pub fn new(name: &str, config_list: Vec<Config>) -> (agent: Self)
        ensures
            agent@ == fresh(name@, assistant_settings().max_consecutive_auto_reply),
            agent.config_list == config_list,
            agent.settings@ == assistant_settings(),
            agent.reply_fn_list@ == Seq::<Seq<char>>::empty(),
    {
        Self::with_settings(name, config_list, AgentSettings::assistant())
    }

    /// An assistant called `name` with the given settings, which has
    /// exchanged nothing yet and has no callbacks.
    pub fn with_settings(name: &str, config_list: Vec<Config>, settings: AgentSettings) -> (agent: Self)
        ensures
            agent@ == fresh(name@, settings.max_consecutive_auto_reply as nat),
            agent.config_list == config_list,
            agent.settings == settings,
            agent.reply_fn_list@ == Seq::<Seq<char>>::empty(),
    {
        Assistant {
            ctx: AgentCtx::new(name),
            config_list,
            messages: ConversationLog::new(),
            settings,
            consecutive_auto_replies: 0,
            reply_fn_list: ReplyTriggerRegistry::new(),
        }
    }

    /// The reply source that answers a reply request from `sender`.
    pub fn reply_source(&self, sender: &AgentCtx) -> (source: ReplySource)
        ensures
            source == selected(self.reply_fn_list@, sender@),
    {
        self.reply_fn_list.select(sender)
    }

    /// Clears the conversational state. The callbacks stay registered.
    pub fn reset(&mut self)
        ensures
            final(self)@ == after_reset(old(self)@),
            final(self).same_setup(old(self)),
    {
        routing::reset(&mut self.messages, &mut self.consecutive_auto_replies);
    }
}

impl AssistantAgent for Assistant {
    /// Registers `function` as the reply source for `trigger`. A trigger that
    /// already has a callback keeps it: the registration is refused with
    /// `DuplicateTrigger` and nothing changes.
    fn register_repply(&mut self, trigger: AgentReplyTrigger, function: Box<dyn ReplyCallback>) -> (done: Result<
        (),
        AgentError,
    >)
        ensures
            done is Ok <==> !old(self).reply_fn_list@.contains(trigger@),
            done is Ok ==> final(self).reply_fn_list@ == old(self).reply_fn_list@.push(trigger@),
            done is Err ==> done == Err::<(), AgentError>(AgentError::DuplicateTrigger),
            done is Err ==> final(self).reply_fn_list@ == old(self).reply_fn_list@,
            unambiguous(old(self).reply_fn_list@) ==> unambiguous(final(self).reply_fn_list@),
            final(self)@ == old(self)@,
            final(self).ctx == old(self).ctx,
            final(self).config_list == old(self).config_list,
            final(self).settings == old(self).settings,
    {
        self.reply_fn_list.register(trigger, function)
    }
}

impl Agent for Assistant {
    /// A turn of the assistant is a turn of the protocol on its registered
    /// triggers. Where the default reply source answers, it is the default
    /// turn; where a registered callback answers, it is the turn that follows
    /// from what the callback yielded and left in the log. The turn changes
    /// neither who the agent is, nor what it was built with, nor which
    /// triggers have a callback.
    open spec fn turned(
        &self,
        message: AgentMessage,
        after: &Self,
        turn_end: Result<Option<Delivery>, AgentError>,
    ) -> bool {
        &&& exists|touched: Map<Seq<char>, Seq<Seq<char>>>, answer: Option<Seq<char>>|
            ended(after@, turn_end) == #[trigger] turn(
                self@,
                self.reply_fn_list@,
                message@,
                touched,
                answer,
            )
        &&& answered_by_default(self@, self.reply_fn_list@, message@) ==> ended(after@, turn_end)
            == default_turn(self@, message@)
        &&& after.same_setup(self)
    }

    /// One turn of the run loop: the turn that `turned` describes.
    fn handle(&mut self, message: AgentMessage) -> (turn_end: Result<Option<Delivery>, AgentError>) {
        routing::handle(
            &self.ctx,
            &mut self.messages,
            &mut self.reply_fn_list,
            &mut self.consecutive_auto_replies,
            self.settings.max_consecutive_auto_reply,
            message,
        )
    }

    /// The default reply source: a fixed placeholder payload.
    fn generate_reply(&self) -> (answer: Option<String>)
        ensures
            yielded(answer) == Some(default_reply()),
    {
        routing::default_answer()
    }

    /// Sends a message to another agent: the payload is logged under the
    /// recipient, and the delivery for the recipient's mailbox comes back.
    fn send(&mut self, recipient: AgentCtx, message: String, request_reply: bool) -> (delivery: Delivery)
        ensures
            ended(final(self)@, Ok(Some(delivery))) == sent(old(self)@, recipient@, message@, request_reply),
            final(self).same_setup(old(self)),
    {
        routing::send(&self.ctx, &mut self.messages, recipient, message, request_reply)
    }

    /// Once a message is received, replies to the sender or stops. The reply
    /// comes from the callback registered for the sender, if there is one,
    /// and from the default reply source otherwise.
    fn receive(&mut self, recipient: AgentCtx, message: String, request_reply: bool) -> (turn_end: Result<
        Option<Delivery>,
        AgentError,
    >)
        ensures
            exists|touched: Map<Seq<char>, Seq<Seq<char>>>, answer: Option<Seq<char>>|
                ended(final(self)@, turn_end) == #[trigger] received(
                    old(self)@,
                    old(self).reply_fn_list@,
                    recipient@,
                    message@,
                    request_reply,
                    touched,
                    answer,
                ),
            selected(old(self).reply_fn_list@, recipient@) == ReplySource::Default ==> ended(
                final(self)@,
                turn_end,
            ) == default_received(old(self)@, recipient@, message@, request_reply),
            final(self).same_setup(old(self)),
    {
        routing::receive(
            &self.ctx,
            &mut self.messages,
            &mut self.reply_fn_list,
            &mut self.consecutive_auto_replies,
            self.settings.max_consecutive_auto_reply,
            recipient,
            message,
            request_reply,
        )
    }
}

} // verus!
