//! Agents that converse by exchanging envelopes.
//!
//! Each agent is an actor: it owns a mailbox, takes the envelopes out of it
//! one at a time, keeps a log of the payloads exchanged with every
//! counterpart, and decides whether and how to reply. This crate is the
//! protocol of that exchange, verified: how agents are addressed ([`agent`]),
//! what one turn of an actor's run loop does with each kind of envelope
//! ([`agent::routing`]), how custom replies are registered and selected
//! ([`agent::registry`]), and how agents are wired ([`builder`]).
//!
//! A turn is a function from the actor's state and an envelope to the next
//! state and, possibly, a delivery. Mailboxes and the scheduling of the run
//! loops belong to the runtime that hosts the agents: it hands each envelope
//! to [`agent::Agent::handle`] and puts the delivery that comes back into the
//! mailbox of the agent it is addressed to.
//!
//! The protocol is specified in [`protocol`] as mathematics, and the laws
//! that hold of every conversation are proved in [`exchange`].

pub mod agent;
pub mod builder;
pub mod config;
pub mod error;
pub mod exchange;
pub mod log;
pub mod protocol;
