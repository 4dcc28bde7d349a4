//! The routing shared by every built-in agent: what an actor does with each
//! kind of envelope. The agents differ only in the reply sources they are
//! wired with, which is the registry they pass in.
//!
//! The functions work on the parts of an actor's conversational state: its own
//! identity, its conversation log, its trigger registry, the number of
//! automatic replies it has sent and the ceiling on that number.

use crate::agent::registry::ReplyTriggerRegistry;
use crate::agent::{handed_over, yielded, AgentCtx, AgentMessage, Delivery, ReplySource};
use crate::config::DEFAULT_REPLY;
use crate::error::AgentError;
use crate::log::{empty_log, recorded, ConversationLog};
use crate::protocol::{
    answered_by_default, concluded, decision, default_reply, default_turn, parcel_for, received,
    selected, sent, turn, ActorState, Outcome,
};
use vstd::prelude::*;

verus! {

/// The conversational state that the given parts make up.
pub open spec fn state_of(own: AgentCtx, log: ConversationLog, auto_replies: u32, ceiling: u32) -> ActorState {
    ActorState { name: own@, log: log@, auto_replies: auto_replies as nat, ceiling: ceiling as nat }
}

/// A turn's end: the state the parts make up, with what is handed to the
/// runtime.
pub open spec fn outcome_of(
    own: AgentCtx,
    log: ConversationLog,
    auto_replies: u32,
    ceiling: u32,
    result: Result<Option<Delivery>, AgentError>,
) -> Outcome {
    Outcome { state: state_of(own, log, auto_replies, ceiling), result: handed_over(result) }
}

/// Stores a message exchanged with `counterpart` in the log kept for it.
pub fn process_received_message(log: &mut ConversationLog, counterpart: &AgentCtx, message: String)
    ensures
        final(log)@ == recorded(old(log)@, counterpart@, message@),
{
    log.append(counterpart.name.as_str(), message);
}

/// Sends `message` to `recipient`: the payload goes into the log kept for the
/// recipient, and what comes back is the delivery for the recipient's
/// mailbox, a `Receive` whose reply address is `own`.
pub fn send(
    own: &AgentCtx,
    log: &mut ConversationLog,
    recipient: AgentCtx,
    message: String,
    request_reply: bool,
) -> (delivery: Delivery)
    ensures
        final(log)@ == recorded(old(log)@, recipient@, message@),
        delivery@ == parcel_for(own@, recipient@, message@, request_reply),
{
    process_received_message(log, &recipient, message.clone());
    Delivery {
        to: recipient,
        envelope: AgentMessage::Receive { recipient: own.clone(), message, request_reply },
    }
}

/// The first half of taking in a message from `sender`: the payload goes into
/// the log kept for the sender, and what comes back says what is owed.
/// `Ok(None)`: no reply was asked for. `Err(ReplyCeilingExceeded)`: a reply
/// was asked for, and the actor has used up its automatic replies.
/// `Ok(Some(source))`: a reply is owed, and `source` is to produce it.
pub fn accept(
    log: &mut ConversationLog,
    registry: &ReplyTriggerRegistry,
    auto_replies: u32,
    ceiling: u32,
    sender: &AgentCtx,
    message: String,
    request_reply: bool,
) -> (owed: Result<Option<ReplySource>, AgentError>)
    ensures
        final(log)@ == recorded(old(log)@, sender@, message@),
        owed == decision(auto_replies as nat, ceiling as nat, registry@, sender@, request_reply),
        owed matches Ok(Some(ReplySource::Registered(index))) ==> index < registry@.len(),
{
    process_received_message(log, sender, message);
    if !request_reply {
        Ok(None)
    } else if auto_replies >= ceiling {
        Err(AgentError::ReplyCeilingExceeded)
    } else {
        Ok(Some(registry.select(sender)))
    }
}

/// The default reply source: a fixed placeholder payload.
pub fn default_answer() -> (answer: Option<String>)
    ensures
        yielded(answer) == Some(default_reply()),
{
    Some(DEFAULT_REPLY.to_owned())
}

/// The second half of taking in a message: given what the reply source
/// yielded, sends it back to `reply_to` with the same flag and counts it.
/// Nothing is sent when the source yielded nothing. The ceiling holds here
/// too: at the ceiling a payload is not sent, and `ReplyCeilingExceeded`
/// comes back.
pub fn conclude(
    own: &AgentCtx,
    log: &mut ConversationLog,
    auto_replies: &mut u32,
    ceiling: u32,
    reply_to: AgentCtx,
    payload: Option<String>,
    request_reply: bool,
) -> (turn_end: Result<Option<Delivery>, AgentError>)
    ensures
        outcome_of(*own, *final(log), *final(auto_replies), ceiling, turn_end) == concluded(
            state_of(*own, *old(log), *old(auto_replies), ceiling),
            reply_to@,
            yielded(payload),
            request_reply,
        ),
{
    match payload {
        None => Ok(None),
        Some(text) => {
            if *auto_replies >= ceiling {
                Err(AgentError::ReplyCeilingExceeded)
            } else {
                let delivery = send(own, log, reply_to, text, request_reply);
                *auto_replies = *auto_replies + 1;
                Ok(Some(delivery))
            }
        },
    }
}

/// Takes in `message` from `sender`, and replies to it if a reply was asked
/// for: the payload goes into the log kept for the sender; then, unless no
/// reply was requested or the ceiling is reached, the reply source selected
/// for the sender is asked, and what it yields is sent back with the same
/// flag.
///
/// Where the default source answers, the outcome is fixed. Where a registered
/// callback answers, the callback decides what it yields and what it leaves
/// in the log, and the outcome is the one that follows from that.
pub fn receive(
    own: &AgentCtx,
    log: &mut ConversationLog,
    registry: &mut ReplyTriggerRegistry,
    auto_replies: &mut u32,
    ceiling: u32,
    sender: AgentCtx,
    message: String,
    request_reply: bool,
) -> (turn_end: Result<Option<Delivery>, AgentError>)
    ensures
        final(registry)@ == old(registry)@,
        exists|touched: Map<Seq<char>, Seq<Seq<char>>>, answer: Option<Seq<char>>|
            outcome_of(*own, *final(log), *final(auto_replies), ceiling, turn_end) == #[trigger] received(
                state_of(*own, *old(log), *old(auto_replies), ceiling),
                old(registry)@,
                sender@,
                message@,
                request_reply,
                touched,
                answer,
            ),
        selected(old(registry)@, sender@) == ReplySource::Default ==> outcome_of(
            *own,
            *final(log),
            *final(auto_replies),
            ceiling,
            turn_end,
        ) == received(
            state_of(*own, *old(log), *old(auto_replies), ceiling),
            old(registry)@,
            sender@,
            message@,
            request_reply,
            recorded(old(log)@, sender@, message@),
            Some(default_reply()),
        ),
{
    let ghost before = state_of(*own, *log, *auto_replies, ceiling);
    let ghost triggers = registry@;
    let ghost arrived = recorded(log@, sender@, message@);
    let owed = accept(log, registry, *auto_replies, ceiling, &sender, message, request_reply);
    match owed {
        Err(error) => {
            assert(outcome_of(*own, *log, *auto_replies, ceiling, Err(error)) == received(
                before,
                triggers,
                sender@,
                message@,
                request_reply,
                arrived,
                Some(default_reply()),
            ));
            Err(error)
        },
        Ok(None) => {
            assert(outcome_of(*own, *log, *auto_replies, ceiling, Ok(None)) == received(
                before,
                triggers,
                sender@,
                message@,
                request_reply,
                arrived,
                Some(default_reply()),
            ));
            Ok(None)
        },
        Ok(Some(source)) => {
            let answer = match source {
                ReplySource::Default => default_answer(),
                ReplySource::Registered(index) => registry.invoke(index, log),
            };
            let ghost touched = log@;
            let turn_end = conclude(own, log, auto_replies, ceiling, sender, answer, request_reply);
            assert(outcome_of(*own, *log, *auto_replies, ceiling, turn_end) == received(
                before,
                triggers,
                sender@,
                message@,
                request_reply,
                touched,
                yielded(answer),
            ));
            turn_end
        },
    }
}

/// Clears the conversational state: no history with anyone is kept, and no
/// automatic reply counts any more.
pub fn reset(log: &mut ConversationLog, auto_replies: &mut u32)
    ensures
        final(log)@ == empty_log(),
        *final(auto_replies) == 0,
{
    log.clear();
    *auto_replies = 0;
}

/// One turn of the run loop: takes `envelope` through the routing.
///
/// `InitiateChat` and `Send` send the payload to the recipient. `Receive`
/// takes the payload in and replies if a reply is owed. `Reset` clears the
/// conversational state. What comes back is for the runtime: the delivery to
/// make, nothing, or the error to report; none of them ends the loop.
pub fn handle(
    own: &AgentCtx,
    log: &mut ConversationLog,
    registry: &mut ReplyTriggerRegistry,
    auto_replies: &mut u32,
    ceiling: u32,
    envelope: AgentMessage,
) -> (turn_end: Result<Option<Delivery>, AgentError>)
    ensures
        final(registry)@ == old(registry)@,
        exists|touched: Map<Seq<char>, Seq<Seq<char>>>, answer: Option<Seq<char>>|
            outcome_of(*own, *final(log), *final(auto_replies), ceiling, turn_end) == #[trigger] turn(
                state_of(*own, *old(log), *old(auto_replies), ceiling),
                old(registry)@,
                envelope@,
                touched,
                answer,
            ),
        answered_by_default(
            state_of(*own, *old(log), *old(auto_replies), ceiling),
            old(registry)@,
            envelope@,
        ) ==> outcome_of(*own, *final(log), *final(auto_replies), ceiling, turn_end) == default_turn(
            state_of(*own, *old(log), *old(auto_replies), ceiling),
            envelope@,
        ),
{
    let ghost before = state_of(*own, *log, *auto_replies, ceiling);
    let ghost triggers = registry@;
    let ghost untouched = log@;
    match envelope {
        AgentMessage::InitiateChat { recipient, message, request_reply } => {
            let delivery = send(own, log, recipient, message, request_reply);
            assert(outcome_of(*own, *log, *auto_replies, ceiling, Ok(Some(delivery))) == turn(
                before,
                triggers,
                envelope@,
                untouched,
                None,
            ));
            Ok(Some(delivery))
        },
        AgentMessage::Send { recipient, message, request_reply } => {
            let delivery = send(own, log, recipient, message, request_reply);
            assert(outcome_of(*own, *log, *auto_replies, ceiling, Ok(Some(delivery))) == turn(
                before,
                triggers,
                envelope@,
                untouched,
                None,
            ));
            Ok(Some(delivery))
        },
        AgentMessage::Receive { recipient, message, request_reply } => {
            let turn_end = receive(
                own,
                log,
                registry,
                auto_replies,
                ceiling,
                recipient,
                message,
                request_reply,
            );
            proof {
                let after = outcome_of(*own, *log, *auto_replies, ceiling, turn_end);
                let (touched, answer) = choose|
                    touched: Map<Seq<char>, Seq<Seq<char>>>,
                    answer: Option<Seq<char>>,
                |
                    after == #[trigger] received(
                        before,
                        triggers,
                        recipient@,
                        message@,
                        request_reply,
                        touched,
                        answer,
                    );
                assert(after == turn(before, triggers, envelope@, touched, answer));
            }
            turn_end
        },
        AgentMessage::Reset => {
            reset(log, auto_replies);
            assert(outcome_of(*own, *log, *auto_replies, ceiling, Ok(None)) == turn(
                before,
                triggers,
                envelope@,
                untouched,
                None,
            ));
            Ok(None)
        },
    }
}

} // verus!
