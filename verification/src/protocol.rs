//! The routing protocol as mathematics: what an actor's conversational state
//! is, and what one envelope does to it.
//!
//! The executable agents are specified against the functions of this module,
//! and the laws of the protocol are proved about them.

use crate::agent::ReplySource;
use crate::config::DEFAULT_REPLY;
use crate::error::AgentError;
use crate::log::{empty_log, recorded};
use vstd::prelude::*;

verus! {

/// An envelope as the protocol sees it: agents are their names, payloads are
/// their characters.
pub enum Envelope {
    /// The seed of a conversation: the actor that gets it sends `message` to
    /// `recipient`.
    InitiateChat { recipient: Seq<char>, message: Seq<char>, request_reply: bool },
    /// An outbound hop: the actor that gets it sends `message` to `recipient`.
    Send { recipient: Seq<char>, message: Seq<char>, request_reply: bool },
    /// An inbound hop: `message` has arrived from `recipient`, the address to
    /// reply to.
    Receive { recipient: Seq<char>, message: Seq<char>, request_reply: bool },
    /// Clears the conversational state of the actor that gets it.
    Reset,
}

/// An envelope on its way to the mailbox of the agent named `to`.
pub struct Parcel {
    pub to: Seq<char>,
    pub envelope: Envelope,
}

/// The conversational state of one actor.
pub struct ActorState {
    /// The actor's own name, the reply address it puts on what it sends.
    pub name: Seq<char>,
    /// For each counterpart, the payloads exchanged with it.
    pub log: Map<Seq<char>, Seq<Seq<char>>>,
    /// How many automatic replies the actor has sent since it was built or
    /// last reset.
    pub auto_replies: nat,
    /// How many automatic replies it may send at most.
    pub ceiling: nat,
}

/// The state an actor is left in by one turn, and what the turn hands to the
/// runtime: a parcel to deliver, nothing, or the error to report.
pub struct Outcome {
    pub state: ActorState,
    pub result: Result<Option<Parcel>, AgentError>,
}

/// The state of an actor that has exchanged nothing yet.
pub open spec fn fresh(name: Seq<char>, ceiling: nat) -> ActorState {
    ActorState { name, log: empty_log(), auto_replies: 0, ceiling }
}

/// The payload that the default reply source yields.
pub open spec fn default_reply() -> Seq<char> {
    DEFAULT_REPLY@
}

/// `index` is the first place in `triggers` that holds `sender`.
pub open spec fn is_first_match(triggers: Seq<Seq<char>>, sender: Seq<char>, index: int) -> bool {
    &&& 0 <= index < triggers.len()
    &&& triggers[index] == sender
    &&& forall|j: int| 0 <= j < index ==> triggers[j] != sender
}

/// The reply source that answers `sender`: the callback registered for it, if
/// there is one, and the default source otherwise.
pub open spec fn selected(triggers: Seq<Seq<char>>, sender: Seq<char>) -> ReplySource {
    if triggers.contains(sender) {
        ReplySource::Registered((choose|i: int| is_first_match(triggers, sender, i)) as usize)
    } else {
        ReplySource::Default
    }
}

/// A first match is the only first match, so it is the one `selected` picks.
pub proof fn lemma_first_match_selected(triggers: Seq<Seq<char>>, sender: Seq<char>, index: int)
    requires
        is_first_match(triggers, sender, index),
        index <= usize::MAX,
    ensures
        selected(triggers, sender) == ReplySource::Registered(index as usize),
{
    // Of two first matches neither can come before the other.
    let picked = choose|i: int| is_first_match(triggers, sender, i);
    assert(is_first_match(triggers, sender, picked));
    assert(picked == index);
}

/// A sequence that holds `sender` at `at` holds it somewhere first.
pub proof fn lemma_has_first_match(triggers: Seq<Seq<char>>, sender: Seq<char>, at: int)
    requires
        0 <= at < triggers.len(),
        triggers[at] == sender,
    ensures
        exists|i: int| is_first_match(triggers, sender, i),
    decreases at,
{
    if exists|j: int| 0 <= j < at && triggers[j] == sender {
        let earlier = choose|j: int| 0 <= j < at && triggers[j] == sender;
        lemma_has_first_match(triggers, sender, earlier);
    } else {
        assert(is_first_match(triggers, sender, at));
    }
}

/// The state after `message` was sent to `recipient`: the payload is in the
/// log kept for the recipient.
pub open spec fn after_send(state: ActorState, recipient: Seq<char>, message: Seq<char>) -> ActorState {
    ActorState { log: recorded(state.log, recipient, message), ..state }
}

/// What a send by `sender` puts into the recipient's mailbox: a `Receive`
/// whose reply address is the sender.
pub open spec fn parcel_for(
    sender: Seq<char>,
    recipient: Seq<char>,
    message: Seq<char>,
    request_reply: bool,
) -> Parcel {
    Parcel { to: recipient, envelope: Envelope::Receive { recipient: sender, message, request_reply } }
}

/// A send: the payload is logged and a parcel leaves for the recipient.
pub open spec fn sent(
    state: ActorState,
    recipient: Seq<char>,
    message: Seq<char>,
    request_reply: bool,
) -> Outcome {
    Outcome {
        state: after_send(state, recipient, message),
        result: Ok(Some(parcel_for(state.name, recipient, message, request_reply))),
    }
}

/// The state after `message` arrived from `sender`: the payload is in the log
/// kept for the sender.
pub open spec fn accepted(state: ActorState, sender: Seq<char>, message: Seq<char>) -> ActorState {
    ActorState { log: recorded(state.log, sender, message), ..state }
}

/// What is owed after an arrival from `sender` at an actor that has sent
/// `auto_replies` automatic replies, may send `ceiling` at most, and has
/// callbacks registered for `triggers`: nothing when no reply was requested,
/// an error when the ceiling is reached, and otherwise a reply from the source
/// selected for the sender.
pub open spec fn decision(
    auto_replies: nat,
    ceiling: nat,
    triggers: Seq<Seq<char>>,
    sender: Seq<char>,
    request_reply: bool,
) -> Result<Option<ReplySource>, AgentError> {
    if !request_reply {
        Ok(None)
    } else if auto_replies >= ceiling {
        Err(AgentError::ReplyCeilingExceeded)
    } else {
        Ok(Some(selected(triggers, sender)))
    }
}

/// The end of a reply: given what the reply source yielded, either nothing
/// happens, or the ceiling forbids the reply, or the payload is sent back to
/// `reply_to` with the same flag and counted.
pub open spec fn concluded(
    state: ActorState,
    reply_to: Seq<char>,
    payload: Option<Seq<char>>,
    request_reply: bool,
) -> Outcome {
    match payload {
        None => Outcome { state, result: Ok(None) },
        Some(text) => {
            if state.auto_replies >= state.ceiling {
                Outcome { state, result: Err(AgentError::ReplyCeilingExceeded) }
            } else {
                Outcome {
                    state: ActorState {
                        auto_replies: state.auto_replies + 1,
                        ..after_send(state, reply_to, text)
                    },
                    result: Ok(Some(parcel_for(state.name, reply_to, text, request_reply))),
                }
            }
        },
    }
}

/// An arrival from `sender` at an actor with callbacks registered for
/// `triggers`, where the reply source, if it is asked, leaves the log as
/// `touched` and yields `answer`.
pub open spec fn received(
    state: ActorState,
    triggers: Seq<Seq<char>>,
    sender: Seq<char>,
    message: Seq<char>,
    request_reply: bool,
    touched: Map<Seq<char>, Seq<Seq<char>>>,
    answer: Option<Seq<char>>,
) -> Outcome {
    let arrived = accepted(state, sender, message);
    match decision(state.auto_replies, state.ceiling, triggers, sender, request_reply) {
        Ok(None) => Outcome { state: arrived, result: Ok(None) },
        Err(error) => Outcome { state: arrived, result: Err(error) },
        Ok(Some(_)) => concluded(
            ActorState { log: touched, ..arrived },
            sender,
            answer,
            request_reply,
        ),
    }
}

/// The state after a reset: no history with anyone, no automatic reply
/// counted.
pub open spec fn after_reset(state: ActorState) -> ActorState {
    ActorState { log: empty_log(), auto_replies: 0, ..state }
}

/// One turn of the run loop of an actor with callbacks registered for
/// `triggers`, on `envelope`, where the reply source, if it is asked, leaves
/// the log as `touched` and yields `answer`.
pub open spec fn turn(
    state: ActorState,
    triggers: Seq<Seq<char>>,
    envelope: Envelope,
    touched: Map<Seq<char>, Seq<Seq<char>>>,
    answer: Option<Seq<char>>,
) -> Outcome {
    match envelope {
        Envelope::InitiateChat { recipient, message, request_reply } => sent(
            state,
            recipient,
            message,
            request_reply,
        ),
        Envelope::Send { recipient, message, request_reply } => sent(
            state,
            recipient,
            message,
            request_reply,
        ),
        Envelope::Receive { recipient, message, request_reply } => received(
            state,
            triggers,
            recipient,
            message,
            request_reply,
            touched,
            answer,
        ),
        Envelope::Reset => Outcome { state: after_reset(state), result: Ok(None) },
    }
}

/// Whether a turn on `envelope` is answered, if at all, by the default reply
/// source: every turn but the arrival of a reply request, below the ceiling,
/// from an agent that has a callback registered.
pub open spec fn answered_by_default(
    state: ActorState,
    triggers: Seq<Seq<char>>,
    envelope: Envelope,
) -> bool {
    match envelope {
        Envelope::Receive { recipient, message, request_reply } => decision(
            state.auto_replies,
            state.ceiling,
            triggers,
            recipient,
            request_reply,
        ) matches Ok(Some(source)) ==> source == ReplySource::Default,
        _ => true,
    }
}

/// An arrival that the default reply source answers: it leaves the log alone
/// and yields the default payload.
pub open spec fn default_received(
    state: ActorState,
    sender: Seq<char>,
    message: Seq<char>,
    request_reply: bool,
) -> Outcome {
    received(
        state,
        Seq::empty(),
        sender,
        message,
        request_reply,
        accepted(state, sender, message).log,
        Some(default_reply()),
    )
}

/// One turn of an actor that has no callbacks: whatever it answers comes from
/// the default reply source.
pub open spec fn default_turn(state: ActorState, envelope: Envelope) -> Outcome {
    match envelope {
        Envelope::Receive { recipient, message, request_reply } => default_received(
            state,
            recipient,
            message,
            request_reply,
        ),
        _ => turn(state, Seq::empty(), envelope, state.log, None),
    }
}

} // verus!
