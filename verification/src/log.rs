//! The per-actor conversation log: for each counterpart, the payloads exchanged
//! with it, oldest first.
//!
//! The log is stored in a `hashbrown::HashMap` keyed by the counterpart's name.
//! The map itself is opaque to the verifier; what it holds is named by
//! [`log_entries`], and the few map operations the log needs are stated over
//! that name.

use hashbrown::HashMap;
use vstd::prelude::*;

verus! {

/// Payloads exchanged with each counterpart, keyed by the counterpart's name.
///
/// Trusted: the struct hides its `hashbrown::HashMap` from the verifier, which
/// cannot take the map's allocator parameter. Everything known about a log is
/// what the functions below state about [`log_entries`].
#[verifier::external_body]
pub struct ConversationLog {
    entries: HashMap<String, Vec<String>>,
}

/// The contents of a log's hash map: each counterpart name that has an entry,
/// with the payloads stored under it in order.
pub uninterp spec fn log_entries(log: ConversationLog) -> Map<Seq<char>, Seq<Seq<char>>>;

/// The log in which no counterpart has an entry.
pub open spec fn empty_log() -> Map<Seq<char>, Seq<Seq<char>>> {
    Map::empty()
}

/// The payloads exchanged with `who`; empty when `who` has no entry.
pub open spec fn history(log: Map<Seq<char>, Seq<Seq<char>>>, who: Seq<char>) -> Seq<Seq<char>> {
    if log.contains_key(who) {
        log[who]
    } else {
        Seq::empty()
    }
}

/// The log after `message` has been appended to the history of `who`.
pub open spec fn recorded(
    log: Map<Seq<char>, Seq<Seq<char>>>,
    who: Seq<char>,
    message: Seq<char>,
) -> Map<Seq<char>, Seq<Seq<char>>> {
    log.insert(who, history(log, who).push(message))
}

/// Trusted wrapper of `hashbrown::HashMap::new`: the new map has no entries.
#[verifier::external_body]
fn map_new() -> (log: ConversationLog)
    ensures
        log_entries(log) == empty_log(),
{
    ConversationLog { entries: HashMap::new() }
}

/// Trusted wrapper of `hashbrown::HashMap::entry` followed by
/// `hashbrown::hash_map::Entry::or_default`: hands out the value stored under
/// `key`, after storing an empty vector there if the key had no entry. The map
/// afterwards differs from the map before only under `key`, where it holds
/// whatever the caller leaves behind the returned reference.
#[verifier::external_body]
fn map_entry_or_default<'a>(log: &'a mut ConversationLog, key: String) -> (slot: &'a mut Vec<String>)
    ensures
        slot.deep_view() == history(log_entries(*old(log)), key@),
        log_entries(*final(log)) == log_entries(*old(log)).insert(key@, final(slot).deep_view()),
{
    log.entries.entry(key).or_default()
}

/// Trusted wrapper of `hashbrown::HashMap::get`: `Some` exactly for a key that
/// has an entry, and then the value stored under it.
#[verifier::external_body]
fn map_get<'a>(log: &'a ConversationLog, key: &str) -> (found: Option<&'a Vec<String>>)
    ensures
        found is Some <==> log_entries(*log).contains_key(key@),
        found is Some ==> found->0.deep_view() == log_entries(*log)[key@],
{
    log.entries.get(key)
}

/// Trusted wrapper of `hashbrown::HashMap::clear`: no entry is left.
#[verifier::external_body]
fn map_clear(log: &mut ConversationLog)
    ensures
        log_entries(*final(log)) == empty_log(),
{
    log.entries.clear()
}

/// Trusted wrapper of `hashbrown::HashMap::is_empty`: true exactly when the
/// map has no entry.
#[verifier::external_body]
fn map_is_empty(log: &ConversationLog) -> (empty: bool)
    ensures
        empty == (log_entries(*log) == empty_log()),
{
    log.entries.is_empty()
}

impl View for ConversationLog {
    type V = Map<Seq<char>, Seq<Seq<char>>>;

    open spec fn view(&self) -> Map<Seq<char>, Seq<Seq<char>>> {
        log_entries(*self)
    }
}

impl ConversationLog {
    /// A log with no entries.
    pub fn new() -> (log: Self)
        ensures
            log@ == empty_log(),
    {
        map_new()
    }

    /// Appends `message` to the history kept for `counterpart`, creating the
    /// history if this is the first payload exchanged with it.
    pub fn append(&mut self, counterpart: &str, message: String)
        ensures
            final(self)@ == recorded(old(self)@, counterpart@, message@),
    {
        let slot = map_entry_or_default(self, counterpart.to_owned());
        let ghost before = slot.deep_view();
        slot.push(message);
        assert(slot.deep_view() =~= before.push(message@));
    }

    /// A copy of the payloads exchanged with `counterpart`, oldest first;
    /// empty if nothing was exchanged with it.
    pub fn history(&self, counterpart: &str) -> (payloads: Vec<String>)
        ensures
            payloads.deep_view() == history(self@, counterpart@),
    {
        let mut payloads: Vec<String> = Vec::new();
        if let Some(stored) = map_get(self, counterpart) {
            let mut i: usize = 0;
            while i < stored.len()
                invariant
                    i <= stored.len(),
                    payloads@ == stored@.subrange(0, i as int),
                decreases stored.len() - i,
            {
                payloads.push(stored[i].clone());
                i = i + 1;
            }
        }
        payloads
    }

    /// The number of payloads exchanged with `counterpart`.
    pub fn exchanged(&self, counterpart: &str) -> (count: usize)
        ensures
            count == history(self@, counterpart@).len(),
    {
        match map_get(self, counterpart) {
            Some(stored) => stored.len(),
            None => 0,
        }
    }

    /// Whether no counterpart has an entry.
    pub fn is_empty(&self) -> (empty: bool)
        ensures
            empty == (self@ == empty_log()),
    {
        map_is_empty(self)
    }

    /// Forgets every counterpart.
    pub fn clear(&mut self)
        ensures
            final(self)@ == empty_log(),
    {
        map_clear(self)
    }
}

} // verus!
