//! The conditions an actor or its runtime can run into, and how each one
//! travels.

use vstd::prelude::*;

verus! {

/// What can go wrong while agents are wired up and exchange envelopes.
#[derive(Debug, Clone, Copy, PartialEq, Eq, Structural)]
pub enum AgentError {
    /// An envelope was sent after the receiving half of the mailbox was dropped.
    MailboxClosed,
    /// A callback was registered for a trigger that already has one.
    DuplicateTrigger,
    /// The actor has sent as many automatic replies as it is allowed to.
    ReplyCeilingExceeded,
    /// The configuration document could not be read or understood.
    ConfigLoadError,
}

/// Where an error is dealt with.
#[derive(Debug, Clone, Copy, PartialEq, Eq, Structural)]
pub enum Propagation {
    /// Handled inside the run loop that met it: the envelope is dropped and
    /// the loop goes on.
    RecoverLocally,
    /// Handed to the caller of the operation that caused it.
    ReportToCaller,
    /// Ends the process before any actor is started.
    FatalAtStartup,
}

/// The propagation policy: transport errors stay in the run loop, protocol
/// errors go to the caller, a configuration that cannot be loaded stops the
/// start-up.
pub open spec fn propagation_of(error: AgentError) -> Propagation {
    match error {
        AgentError::MailboxClosed => Propagation::RecoverLocally,
        AgentError::DuplicateTrigger => Propagation::ReportToCaller,
        AgentError::ReplyCeilingExceeded => Propagation::ReportToCaller,
        AgentError::ConfigLoadError => Propagation::FatalAtStartup,
    }
}

/// The text that describes an error to a person.
pub open spec fn description_of(error: AgentError) -> Seq<char> {
    match error {
        AgentError::MailboxClosed => "mailbox closed: the receiving half was dropped"@,
        AgentError::DuplicateTrigger => "a callback is already registered for this trigger"@,
        AgentError::ReplyCeilingExceeded => "the maximum number of automatic replies was reached"@,
        AgentError::ConfigLoadError => "the configuration could not be loaded"@,
    }
}

impl AgentError {
    /// Where this error is dealt with.
    pub fn propagation(&self) -> (p: Propagation)
        ensures
            p == propagation_of(*self),
    {
        match self {
            AgentError::MailboxClosed => Propagation::RecoverLocally,
            AgentError::DuplicateTrigger => Propagation::ReportToCaller,
            AgentError::ReplyCeilingExceeded => Propagation::ReportToCaller,
            AgentError::ConfigLoadError => Propagation::FatalAtStartup,
        }
    }

    /// A sentence that describes the error.
    pub fn describe(&self) -> (text: String)
        ensures
            text@ == description_of(*self),
    {
        match self {
            AgentError::MailboxClosed => "mailbox closed: the receiving half was dropped".to_owned(),
            AgentError::DuplicateTrigger => "a callback is already registered for this trigger".to_owned(),
            AgentError::ReplyCeilingExceeded => "the maximum number of automatic replies was reached".to_owned(),
            AgentError::ConfigLoadError => "the configuration could not be loaded".to_owned(),
        }
    }
}

} // verus!
