//! Conversations as mathematics: mailboxes, and actors that take turns on what
//! their mailboxes hold. The laws of the protocol are stated and proved here,
//! over the same functions that specify the executable agents.

use crate::agent::ReplySource;
use crate::error::AgentError;
use crate::log::{empty_log, history};
use crate::protocol::{
    accepted, after_reset, answered_by_default, decision, default_reply, default_turn,
    is_first_match, lemma_first_match_selected, lemma_has_first_match, parcel_for, received, selected,
    turn, ActorState, Envelope, Outcome, Parcel,
};
use vstd::prelude::*;

verus! {

/// A mailbox: the envelopes that wait for its owner, oldest first, and how
/// many of them it holds at most.
pub struct Mailbox {
    pub pending: Seq<Envelope>,
    pub capacity: nat,
}

/// The empty mailbox of the given capacity.
pub open spec fn empty_mailbox(capacity: nat) -> Mailbox {
    Mailbox { pending: Seq::empty(), capacity }
}

/// The mailbox after `envelopes` were put into it one after the other, or
/// `None` if one of them found the mailbox full: its sender has to wait.
pub open spec fn enqueued(mailbox: Mailbox, envelopes: Seq<Envelope>) -> Option<Mailbox>
    decreases envelopes.len(),
{
    if envelopes.len() == 0 {
        Some(mailbox)
    } else if mailbox.pending.len() >= mailbox.capacity {
        None
    } else {
        enqueued(
            Mailbox { pending: mailbox.pending.push(envelopes.first()), ..mailbox },
            envelopes.drop_first(),
        )
    }
}

/// The state of an actor without callbacks after it has taken its turn on
/// each of `pending`, oldest first.
pub open spec fn drained(state: ActorState, pending: Seq<Envelope>) -> ActorState
    decreases pending.len(),
{
    if pending.len() == 0 {
        state
    } else {
        drained(default_turn(state, pending.first()).state, pending.drop_first())
    }
}

/// What an actor without callbacks puts into other mailboxes while it takes
/// its turn on each of `pending`, oldest first.
pub open spec fn emitted(state: ActorState, pending: Seq<Envelope>) -> Seq<Parcel>
    decreases pending.len(),
{
    if pending.len() == 0 {
        Seq::empty()
    } else {
        let first = default_turn(state, pending.first());
        let rest = emitted(first.state, pending.drop_first());
        match first.result {
            Ok(Some(parcel)) => seq![parcel] + rest,
            _ => rest,
        }
    }
}

/// The `Send` envelope for each of `payloads`, in order, all to `recipient`.
pub open spec fn sends(recipient: Seq<char>, payloads: Seq<Seq<char>>, request_reply: bool) -> Seq<Envelope> {
    Seq::new(
        payloads.len(),
        |i: int| Envelope::Send { recipient, message: payloads[i], request_reply },
    )
}

/// The `Receive` envelope for each of `payloads`, in order, all from `sender`.
pub open spec fn arrivals(sender: Seq<char>, payloads: Seq<Seq<char>>, request_reply: bool) -> Seq<Envelope> {
    Seq::new(
        payloads.len(),
        |i: int| Envelope::Receive { recipient: sender, message: payloads[i], request_reply },
    )
}

/// The envelopes of `parcels`, in order.
pub open spec fn envelopes_of(parcels: Seq<Parcel>) -> Seq<Envelope> {
    Seq::new(parcels.len(), |i: int| parcels[i].envelope)
}

/// The payloads that `pending` brings from `sender`, in the order they wait.
pub open spec fn arrivals_from(pending: Seq<Envelope>, sender: Seq<char>) -> Seq<Seq<char>>
    decreases pending.len(),
{
    if pending.len() == 0 {
        Seq::empty()
    } else {
        let rest = arrivals_from(pending.drop_first(), sender);
        match pending.first() {
            Envelope::Receive { recipient, message, request_reply } => {
                if recipient == sender {
                    seq![message] + rest
                } else {
                    rest
                }
            },
            _ => rest,
        }
    }
}

/// Nothing in `envelope` makes its receiver write into its log for
/// `counterpart` but an arrival from that counterpart that asks for no reply.
pub open spec fn only_brings(envelope: Envelope, counterpart: Seq<char>) -> bool {
    match envelope {
        Envelope::InitiateChat { recipient, message, request_reply } => recipient != counterpart,
        Envelope::Send { recipient, message, request_reply } => recipient != counterpart,
        Envelope::Receive { recipient, message, request_reply } => recipient == counterpart
            ==> !request_reply,
        Envelope::Reset => false,
    }
}

/// Sending leaves, for each payload in order, one `Receive` addressed to the
/// recipient with the sender as reply address.
pub proof fn lemma_sends_emit_receives(
    state: ActorState,
    recipient: Seq<char>,
    payloads: Seq<Seq<char>>,
    request_reply: bool,
)
    ensures
        emitted(state, sends(recipient, payloads, request_reply)) == Seq::new(
            payloads.len(),
            |i: int| parcel_for(state.name, recipient, payloads[i], request_reply),
        ),
    decreases payloads.len(),
{
    let pending = sends(recipient, payloads, request_reply);
    if payloads.len() > 0 {
        let first = default_turn(state, pending.first());
        assert(pending.drop_first() =~= sends(recipient, payloads.drop_first(), request_reply));
        lemma_sends_emit_receives(first.state, recipient, payloads.drop_first(), request_reply);
    }
}

/// Envelopes that fit are all taken, in the order they came.
pub proof fn lemma_enqueued_in_order(mailbox: Mailbox, envelopes: Seq<Envelope>)
    requires
        mailbox.pending.len() + envelopes.len() <= mailbox.capacity,
    ensures
        enqueued(mailbox, envelopes) == Some(
            Mailbox { pending: mailbox.pending + envelopes, ..mailbox },
        ),
    decreases envelopes.len(),
{
    if envelopes.len() > 0 {
        let next = Mailbox { pending: mailbox.pending.push(envelopes.first()), ..mailbox };
        lemma_enqueued_in_order(next, envelopes.drop_first());
        assert(next.pending + envelopes.drop_first() =~= mailbox.pending + envelopes);
    }
}

/// Senders that share a mailbox do not disturb each other's order. However
/// the envelopes of several senders are interleaved in a mailbox, as long as
/// the receiver is neither reset nor made to send to one of them, its log for
/// that sender grows by exactly the payloads that sender's envelopes brought,
/// in the order they waited in the mailbox.
pub proof fn interleaved_senders_keep_their_order(
    receiver: ActorState,
    pending: Seq<Envelope>,
    sender: Seq<char>,
)
    requires
        forall|i: int| 0 <= i < pending.len() ==> only_brings(#[trigger] pending[i], sender),
    ensures
        history(drained(receiver, pending).log, sender) == history(receiver.log, sender)
            + arrivals_from(pending, sender),
    decreases pending.len(),
{
    if pending.len() > 0 {
        let first = default_turn(receiver, pending.first());
        let rest = pending.drop_first();
        assert(only_brings(pending[0], sender));
        assert forall|i: int| 0 <= i < rest.len() implies only_brings(#[trigger] rest[i], sender) by {
            assert(rest[i] == pending[i + 1]);
        }
        interleaved_senders_keep_their_order(first.state, rest, sender);
    }
}

/// The payloads that arrivals from one sender bring are the payloads they
/// were made of.
pub proof fn lemma_arrivals_bring_their_payloads(sender: Seq<char>, payloads: Seq<Seq<char>>)
    ensures
        arrivals_from(arrivals(sender, payloads, false), sender) == payloads,
    decreases payloads.len(),
{
    let pending = arrivals(sender, payloads, false);
    if payloads.len() > 0 {
        assert(pending.drop_first() =~= arrivals(sender, payloads.drop_first(), false));
        lemma_arrivals_bring_their_payloads(sender, payloads.drop_first());
        assert(seq![payloads[0]] + payloads.drop_first() =~= payloads);
    } else {
        assert(payloads =~= Seq::<Seq<char>>::empty());
    }
}

/// Order is kept from sender to receiver. When one actor sends payloads to
/// another, none asking for a reply, and the receiver's mailbox has room for
/// them, then every one of them reaches the mailbox, and once the receiver has
/// consumed its mailbox, its log for the sender has grown by exactly the
/// payloads sent, in the order they were sent: nothing is dropped and nothing
/// overtakes.
pub proof fn sends_are_logged_in_order(
    sender: ActorState,
    receiver: ActorState,
    payloads: Seq<Seq<char>>,
    capacity: nat,
)
    requires
        payloads.len() <= capacity,
    ensures
        ({
            let parcels = emitted(sender, sends(receiver.name, payloads, false));
            let mailbox = enqueued(empty_mailbox(capacity), envelopes_of(parcels));
            &&& parcels.len() == payloads.len()
            &&& forall|i: int| 0 <= i < parcels.len() ==> (#[trigger] parcels[i]).to == receiver.name
            &&& mailbox is Some
            &&& history(drained(receiver, mailbox->0.pending).log, sender.name) == history(
                receiver.log,
                sender.name,
            ) + payloads
        }),
{
    let parcels = emitted(sender, sends(receiver.name, payloads, false));
    let pending = arrivals(sender.name, payloads, false);
    lemma_sends_emit_receives(sender, receiver.name, payloads, false);
    assert(envelopes_of(parcels) =~= pending);
    lemma_enqueued_in_order(empty_mailbox(capacity), pending);
    assert(empty_mailbox(capacity).pending + pending =~= pending);
    interleaved_senders_keep_their_order(receiver, pending, sender.name);
    lemma_arrivals_bring_their_payloads(sender.name, payloads);
}

/// The log only grows. A turn of an actor without callbacks on anything but
/// `Reset` keeps, for every counterpart, what was logged before, and adds to
/// its end at most.
pub proof fn log_is_append_only(state: ActorState, envelope: Envelope, counterpart: Seq<char>)
    requires
        envelope != Envelope::Reset,
    ensures
        history(state.log, counterpart).is_prefix_of(
            history(default_turn(state, envelope).state.log, counterpart),
        ),
{
    let before = history(state.log, counterpart);
    let after = history(default_turn(state, envelope).state.log, counterpart);
    assert(after.subrange(0, before.len() as int) =~= before);
}

/// The ceiling is hard. Whatever envelope an actor takes its turn on,
/// whatever callbacks it has and whatever they yield: an actor that has not
/// sent more automatic replies than its ceiling allows has not done so after
/// the turn either, and the turn changes neither its name nor its ceiling.
pub proof fn ceiling_is_never_exceeded(
    state: ActorState,
    triggers: Seq<Seq<char>>,
    envelope: Envelope,
    touched: Map<Seq<char>, Seq<Seq<char>>>,
    answer: Option<Seq<char>>,
)
    requires
        state.auto_replies <= state.ceiling,
    ensures
        turn(state, triggers, envelope, touched, answer).state.auto_replies <= state.ceiling,
        turn(state, triggers, envelope, touched, answer).state.ceiling == state.ceiling,
        turn(state, triggers, envelope, touched, answer).state.name == state.name,
{
}

/// The first hop of a conversation. An actor that is handed `InitiateChat`
/// for a recipient puts exactly one envelope on its way: a `Receive`
/// addressed to that recipient, with the actor itself as the logical sender,
/// the payload unchanged and the reply flag unchanged. Once the recipient
/// takes it in, the payload is the newest entry of its log for the sender.
pub proof fn initiate_chat_reaches_recipient(
    initiator: ActorState,
    recipient: ActorState,
    message: Seq<char>,
    request_reply: bool,
)
    ensures
        ({
            let opening = Envelope::InitiateChat { recipient: recipient.name, message, request_reply };
            let arrival = Envelope::Receive { recipient: initiator.name, message, request_reply };
            &&& default_turn(initiator, opening).result == Ok::<Option<Parcel>, AgentError>(
                Some(Parcel { to: recipient.name, envelope: arrival }),
            )
            &&& history(default_turn(initiator, opening).state.log, recipient.name) == history(
                initiator.log,
                recipient.name,
            ).push(message)
            &&& history(accepted(recipient, initiator.name, message).log, initiator.name) == history(
                recipient.log,
                initiator.name,
            ).push(message)
        }),
{
}

/// No reply without a request. Whatever the state of the actor, whatever
/// callbacks it has and whatever they would do: taking in a `Receive` whose
/// reply flag is off logs the payload and puts nothing on its way.
pub proof fn no_reply_without_request(
    state: ActorState,
    triggers: Seq<Seq<char>>,
    sender: Seq<char>,
    message: Seq<char>,
    touched: Map<Seq<char>, Seq<Seq<char>>>,
    answer: Option<Seq<char>>,
)
    ensures
        received(state, triggers, sender, message, false, touched, answer) == (Outcome {
            state: accepted(state, sender, message),
            result: Ok(None),
        }),
{
}

/// The default reply, once per request. An actor below its ceiling that takes
/// in a reply request from an agent without a registered callback is answered
/// by the default source, and puts exactly one envelope on its way: the
/// default payload, addressed to the agent that asked, with the reply flag
/// still on. Its log for that agent grows by the payload taken in and the
/// payload sent back, and one more automatic reply is counted.
pub proof fn default_reply_sent_once(
    state: ActorState,
    triggers: Seq<Seq<char>>,
    sender: Seq<char>,
    message: Seq<char>,
)
    requires
        !triggers.contains(sender),
        state.auto_replies < state.ceiling,
    ensures
        ({
            let request = Envelope::Receive { recipient: sender, message, request_reply: true };
            let outcome = default_turn(state, request);
            &&& answered_by_default(state, triggers, request)
            &&& forall|touched: Map<Seq<char>, Seq<Seq<char>>>|
                #[trigger] turn(state, triggers, request, touched, Some(default_reply())).result
                    == outcome.result
            &&& outcome.result == Ok::<Option<Parcel>, AgentError>(
                Some(parcel_for(state.name, sender, default_reply(), true)),
            )
            &&& history(outcome.state.log, sender) == history(state.log, sender).push(message).push(
                default_reply(),
            )
            &&& outcome.state.auto_replies == state.auto_replies + 1
        }),
{
}

/// A registered callback takes the place of the default source. After a
/// callback was registered for a trigger that had none, a reply request from
/// the agent of that name, below the ceiling, is answered by that callback
/// and not by the default source: what is sent back is what the callback
/// yields, and nothing is sent back when it yields nothing.
pub proof fn registered_callback_answers(
    state: ActorState,
    triggers: Seq<Seq<char>>,
    trigger: Seq<char>,
    message: Seq<char>,
    touched: Map<Seq<char>, Seq<Seq<char>>>,
    answer: Option<Seq<char>>,
)
    requires
        !triggers.contains(trigger),
        triggers.len() < usize::MAX,
        state.auto_replies < state.ceiling,
    ensures
        ({
            let registered = triggers.push(trigger);
            let request = Envelope::Receive { recipient: trigger, message, request_reply: true };
            let outcome = turn(state, registered, request, touched, answer);
            &&& selected(registered, trigger) == ReplySource::Registered(triggers.len() as usize)
            &&& decision(state.auto_replies, state.ceiling, registered, trigger, true) == Ok::<
                Option<ReplySource>,
                AgentError,
            >(Some(ReplySource::Registered(triggers.len() as usize)))
            &&& !answered_by_default(state, registered, request)
            &&& answer matches Some(text) ==> outcome.result == Ok::<Option<Parcel>, AgentError>(
                Some(parcel_for(state.name, trigger, text, true)),
            )
            &&& answer is None ==> outcome.result == Ok::<Option<Parcel>, AgentError>(None)
        }),
{
    let registered = triggers.push(trigger);
    let place = triggers.len() as int;
    assert forall|j: int| 0 <= j < place implies registered[j] != trigger by {
        assert(triggers.contains(triggers[j]));
    }
    lemma_first_match_selected(registered, trigger, place);
}

/// A trigger that is registered is never answered by the default source.
/// Whenever a callback is registered for the name of an agent, the reply
/// source selected for that agent is a registered one, and the trigger at its
/// place in the registry is that name: lookup is by exact name.
pub proof fn registered_trigger_selects_its_callback(triggers: Seq<Seq<char>>, sender: Seq<char>)
    requires
        triggers.contains(sender),
        triggers.len() <= usize::MAX,
    ensures
        selected(triggers, sender) matches ReplySource::Registered(index) && index < triggers.len()
            && triggers[index as int] == sender,
        selected(triggers, sender) != ReplySource::Default,
{
    let at = choose|i: int| 0 <= i < triggers.len() && triggers[i] == sender;
    lemma_has_first_match(triggers, sender, at);
    let first = choose|i: int| is_first_match(triggers, sender, i);
    lemma_first_match_selected(triggers, sender, first);
}

/// An agent without a registered trigger is answered by the default source.
pub proof fn unregistered_sender_selects_default(triggers: Seq<Seq<char>>, sender: Seq<char>)
    requires
        !triggers.contains(sender),
    ensures
        selected(triggers, sender) == ReplySource::Default,
{
}

/// Two actors without callbacks, and the envelope that is on its way between
/// them, if any.
pub struct Exchange {
    pub first: ActorState,
    pub second: ActorState,
    pub in_flight: Option<Parcel>,
}

/// What a turn puts on its way: the parcel it hands over, if it hands one
/// over.
pub open spec fn carried(result: Result<Option<Parcel>, AgentError>) -> Option<Parcel> {
    match result {
        Ok(Some(parcel)) => Some(parcel),
        _ => None,
    }
}

/// One hop: the envelope in flight reaches the actor it is addressed to, which
/// takes its turn on it. An envelope addressed to neither actor leaves the
/// exchange.
pub open spec fn hop(exchange: Exchange) -> Exchange {
    match exchange.in_flight {
        None => exchange,
        Some(parcel) => {
            if parcel.to == exchange.first.name {
                let outcome = default_turn(exchange.first, parcel.envelope);
                Exchange { first: outcome.state, in_flight: carried(outcome.result), ..exchange }
            } else if parcel.to == exchange.second.name {
                let outcome = default_turn(exchange.second, parcel.envelope);
                Exchange { second: outcome.state, in_flight: carried(outcome.result), ..exchange }
            } else {
                Exchange { in_flight: None, ..exchange }
            }
        },
    }
}

/// The exchange after `hops` hops.
pub open spec fn after_hops(exchange: Exchange, hops: nat) -> Exchange
    decreases hops,
{
    if hops == 0 {
        exchange
    } else {
        after_hops(hop(exchange), (hops - 1) as nat)
    }
}

/// The automatic replies an actor may still send.
pub open spec fn replies_left(state: ActorState) -> nat {
    if state.auto_replies < state.ceiling {
        (state.ceiling - state.auto_replies) as nat
    } else {
        0
    }
}

/// A bound on the hops an exchange still has in it: none when nothing is in
/// flight; otherwise one for every automatic reply either actor may still
/// send, one for the hop that ends the conversation, and one more if the
/// envelope in flight is yet to be sent on.
pub open spec fn hops_left(exchange: Exchange) -> nat {
    match exchange.in_flight {
        None => 0,
        Some(parcel) => {
            let replies = replies_left(exchange.first) + replies_left(exchange.second);
            match parcel.envelope {
                Envelope::InitiateChat { .. } => replies + 2,
                Envelope::Send { .. } => replies + 2,
                _ => replies + 1,
            }
        },
    }
}

/// Every hop that has an envelope to deliver uses up one of the hops left.
pub proof fn lemma_hop_uses_up(exchange: Exchange)
    requires
        exchange.in_flight is Some,
    ensures
        hops_left(hop(exchange)) < hops_left(exchange),
{
}

/// An exchange is quiet after as many hops as it has left, and stays quiet.
pub proof fn lemma_quiet_after(exchange: Exchange, hops: nat)
    requires
        hops >= hops_left(exchange),
    ensures
        after_hops(exchange, hops).in_flight is None,
    decreases hops,
{
    if hops > 0 {
        if exchange.in_flight is Some {
            lemma_hop_uses_up(exchange);
        }
        lemma_quiet_after(hop(exchange), (hops - 1) as nat);
    }
}

/// A conversation ends. Two actors that answer every reply request from the
/// default source, with the reply flag on at every hop, do not go on for
/// ever: whatever is in flight between them, after at most one hop for every
/// automatic reply the two may still send, and two more, nothing is in flight
/// any more.
pub proof fn conversation_terminates(exchange: Exchange)
    ensures
        after_hops(
            exchange,
            replies_left(exchange.first) + replies_left(exchange.second) + 2,
        ).in_flight is None,
{
    lemma_quiet_after(
        exchange,
        replies_left(exchange.first) + replies_left(exchange.second) + 2,
    );
}

/// Reset forgets everything. Whatever the state of the actor and whatever
/// callbacks it has: after a turn on `Reset` its log is empty for every
/// counterpart, no automatic reply counts any more, and nothing is put on its
/// way.
pub proof fn reset_clears_every_history(
    state: ActorState,
    triggers: Seq<Seq<char>>,
    touched: Map<Seq<char>, Seq<Seq<char>>>,
    answer: Option<Seq<char>>,
    counterpart: Seq<char>,
)
    ensures
        turn(state, triggers, Envelope::Reset, touched, answer) == (Outcome {
            state: after_reset(state),
            result: Ok(None),
        }),
        after_reset(state).log == empty_log(),
        history(after_reset(state).log, counterpart) == Seq::<Seq<char>>::empty(),
        after_reset(state).auto_replies == 0,
        after_reset(state).name == state.name,
        after_reset(state).ceiling == state.ceiling,
{
}

/// Reset stays with the actor it is addressed to: the other actor of the
/// exchange is left exactly as it was.
pub proof fn reset_leaves_others_alone(exchange: Exchange)
    requires
        exchange.first.name != exchange.second.name,
        exchange.in_flight matches Some(parcel) && parcel.envelope == Envelope::Reset,
    ensures
        exchange.in_flight->0.to == exchange.first.name ==> hop(exchange).second == exchange.second
            && hop(exchange).first == after_reset(exchange.first),
        exchange.in_flight->0.to == exchange.second.name ==> hop(exchange).first == exchange.first
            && hop(exchange).second == after_reset(exchange.second),
{
}

} // verus!
