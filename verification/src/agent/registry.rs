//! The trigger registry of an assistant: which agents are answered by a
//! registered callback, and by which one.

use crate::agent::{AgentCtx, AgentReplyTrigger, ReplyCallback, ReplySource};
use crate::error::AgentError;
use crate::log::ConversationLog;
use crate::protocol::{is_first_match, lemma_first_match_selected, selected};
use vstd::prelude::*;

verus! {

/// A trigger and the callback that answers it.
pub struct RegistryEntry {
    trigger: AgentReplyTrigger,
    callback: Box<dyn ReplyCallback>,
}

impl RegistryEntry {
    /// The entry that answers `trigger` with `callback`.
    fn new(trigger: AgentReplyTrigger, callback: Box<dyn ReplyCallback>) -> (entry: Self)
        ensures
            entry.trigger == trigger,
    {
        RegistryEntry { trigger, callback }
    }
}

/// The callbacks of one actor, each under the trigger it was registered for.
/// Lookup is by exact name. A trigger is registered at most once.
pub struct ReplyTriggerRegistry {
    entries: Vec<RegistryEntry>,
}

impl View for ReplyTriggerRegistry {
    type V = Seq<Seq<char>>;

    /// The registered triggers, in the order they were registered.
    closed spec fn view(&self) -> Seq<Seq<char>> {
        Seq::new(self.entries.len() as nat, |i: int| self.entries[i].trigger@)
    }
}

/// A registry in which no trigger occurs twice.
pub open spec fn unambiguous(triggers: Seq<Seq<char>>) -> bool {
    forall|i: int, j: int| 0 <= i < j < triggers.len() ==> triggers[i] != triggers[j]
}

impl ReplyTriggerRegistry {
    /// A registry without callbacks: every reply comes from the default
    /// source.
    pub fn new() -> (registry: Self)
        ensures
            registry@ == Seq::<Seq<char>>::empty(),
            unambiguous(registry@),
    {
        ReplyTriggerRegistry { entries: Vec::new() }
    }

    /// The number of registered callbacks.
    pub fn len(&self) -> (count: usize)
        ensures
            count == self@.len(),
    {
        self.entries.len()
    }

    /// The place of the callback registered under `name`, if there is one.
    fn position(&self, name: &String) -> (found: Option<usize>)
        ensures
            match found {
                Some(index) => is_first_match(self@, name@, index as int),
                None => !self@.contains(name@),
            },
    {
        let mut i: usize = 0;
        while i < self.entries.len()
            invariant
                i <= self.entries.len(),
                forall|j: int| 0 <= j < i ==> self@[j] != name@,
            decreases self.entries.len() - i,
        {
            if *self.entries[i].trigger.name() == *name {
                return Some(i);
            }
            i = i + 1;
        }
        None
    }

    /// The place of the callback that answers `sender`, if one is registered
    /// for it.
    pub fn find(&self, sender: &AgentCtx) -> (found: Option<usize>)
        ensures
            match found {
                Some(index) => is_first_match(self@, sender@, index as int),
                None => !self@.contains(sender@),
            },
    {
        self.position(&sender.name)
    }

    /// The reply source that answers `sender`: its callback if it has one,
    /// the default source otherwise.
    pub fn select(&self, sender: &AgentCtx) -> (source: ReplySource)
        ensures
            source == selected(self@, sender@),
            source matches ReplySource::Registered(index) ==> index < self@.len(),
    {
        match self.find(sender) {
            Some(index) => {
                proof {
                    lemma_first_match_selected(self@, sender@, index as int);
                }
                ReplySource::Registered(index)
            },
            None => ReplySource::Default,
        }
    }

    /// Registers `callback` for `trigger`, unless the trigger already has a
    /// callback: then nothing changes and `DuplicateTrigger` is returned.
    pub fn register(&mut self, trigger: AgentReplyTrigger, callback: Box<dyn ReplyCallback>) -> (done: Result<
        (),
        AgentError,
    >)
        ensures
            done is Ok <==> !old(self)@.contains(trigger@),
            done is Ok ==> final(self)@ == old(self)@.push(trigger@),
            done is Err ==> done == Err::<(), AgentError>(AgentError::DuplicateTrigger),
            done is Err ==> final(self)@ == old(self)@,
            unambiguous(old(self)@) ==> unambiguous(final(self)@),
    {
        if self.position(trigger.name()).is_some() {
            return Err(AgentError::DuplicateTrigger);
        }
        let entry = RegistryEntry::new(trigger, callback);
        self.entries.push(entry);
        Ok(())
    }

    /// Runs the callback at `index` on `log` and returns what it yields. The
    /// registry keeps its triggers; the callback decides the rest. Where no
    /// callback stands at `index`, nothing is run and nothing is yielded.
    pub fn invoke(&mut self, index: usize, log: &mut ConversationLog) -> (answer: Option<String>)
        ensures
            final(self)@ == old(self)@,
            index >= old(self)@.len() ==> answer is None && final(log)@ == old(log)@,
    {
        if index < self.entries.len() {
            self.entries[index].callback.reply(log)
        } else {
            None
        }
    }
}

} // verus!
