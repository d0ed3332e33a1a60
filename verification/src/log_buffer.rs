//! The bounded log: the most recent entries in the order of their arrival.
//!
//! The log holds no more entries than its limit. An entry that comes in
//! when the log is full drives out the oldest one, and so does every entry
//! that a lowered limit has no room for.

use crate::types::{LogEntry, LogEntryView};
use std::collections::VecDeque;
use vstd::prelude::*;

verus! {

/// The limit of a new log.
pub const DEFAULT_LOG_LIMIT: usize = 1000;

/// The smallest limit a log can have.
pub const MIN_LOG_LIMIT: usize = 100;

/// The largest limit a log can have.
pub const MAX_LOG_LIMIT: usize = 10000;

/// The last `limit` items of `items`, or all of them where they are fewer.
pub open spec fn most_recent<T>(items: Seq<T>, limit: int) -> Seq<T> {
    if items.len() <= limit {
        items
    } else if limit <= 0 {
        Seq::empty()
    } else {
        items.subrange(items.len() - limit, items.len() as int)
    }
}

/// `limit`, brought into the range from `MIN_LOG_LIMIT` to `MAX_LOG_LIMIT`.
pub open spec fn clamped_limit(limit: int) -> int {
    if limit < MIN_LOG_LIMIT {
        MIN_LOG_LIMIT as int
    } else if limit > MAX_LOG_LIMIT {
        MAX_LOG_LIMIT as int
    } else {
        limit
    }
}

/// What a log that holds `held` under the limit `limit` holds after each
/// of `items` came in, one after the other.
pub open spec fn after_inserts<T>(held: Seq<T>, items: Seq<T>, limit: int) -> Seq<T>
    decreases items.len(),
{
    if items.len() == 0 {
        held
    } else {
        most_recent(after_inserts(held, items.drop_last(), limit).push(items.last()), limit)
    }
}

/// The views of the entries `entries`.
pub open spec fn entry_views(entries: Seq<LogEntry>) -> Seq<LogEntryView> {
    entries.map_values(|entry: LogEntry| entry@)
}

/// What a log that holds `held` within its limit holds after each of
/// `items` came in is the most recent of all of them, in the order of their
/// arrival.
pub proof fn lemma_inserts_onto<T>(held: Seq<T>, items: Seq<T>, limit: int)
    requires
        held.len() <= limit,
    ensures
        after_inserts(held, items, limit) == most_recent(held + items, limit),
    decreases items.len(),
{
    if items.len() > 0 {
        lemma_inserts_onto(held, items.drop_last(), limit);
        lemma_most_recent_push(held + items.drop_last(), items.last(), limit);
    }
}

/// The most recent items of the most recent items, under one limit, are
/// the most recent items of the whole.
pub proof fn lemma_most_recent_push<T>(items: Seq<T>, item: T, limit: int)
    ensures
        most_recent(most_recent(items, limit).push(item), limit) == most_recent(
            items.push(item),
            limit,
        ),
{
}

/// After any number of entries came into an empty log, one after the other,
/// the log holds as many entries as came in or as its limit allows, whichever
/// is less, and they are the most recent ones in the order of their arrival.
pub proof fn lemma_inserts_keep_most_recent<T>(items: Seq<T>, limit: int)
    requires
        0 <= limit,
    ensures
        after_inserts(Seq::<T>::empty(), items, limit) == most_recent(items, limit),
        after_inserts(Seq::<T>::empty(), items, limit).len() == if items.len() <= limit {
            items.len() as int
        } else {
            limit
        },
    decreases items.len(),
{
    if items.len() > 0 {
        lemma_inserts_keep_most_recent(items.drop_last(), limit);
        lemma_most_recent_push(items.drop_last(), items.last(), limit);
    }
}

/// A lowered limit leaves the most recent entries: what is kept under a
/// limit, cut down to a lower limit, is what is kept under the lower one.
pub proof fn lemma_lowered_limit<T>(items: Seq<T>, limit: int, lower: int)
    requires
        lower <= limit,
    ensures
        most_recent(most_recent(items, limit), lower) == most_recent(items, lower),
{
}

/// The log of a connection manager.
pub struct LogBuffer {
    entries: VecDeque<LogEntry>,
    max_entries: usize,
}

impl View for LogBuffer {
    type V = Seq<LogEntryView>;

    closed spec fn view(&self) -> Seq<LogEntryView> {
        entry_views(self.entries@)
    }
}

impl LogBuffer {
    /// The limit of the log.
    pub closed spec fn limit(&self) -> int {
        self.max_entries as int
    }

    /// The log holds no more entries than its limit, and the limit is one
    /// that a log can have.
    pub closed spec fn wf(&self) -> bool {
        &&& MIN_LOG_LIMIT <= self.max_entries <= MAX_LOG_LIMIT
        &&& self.entries@.len() <= self.max_entries
    }

    /// A well-formed log keeps within its limit.
    pub proof fn lemma_within_limit(&self)
        requires
            self.wf(),
        ensures
            self@.len() <= self.limit(),
            MIN_LOG_LIMIT <= self.limit() <= MAX_LOG_LIMIT,
    {
    }

    /// An empty log with the limit `DEFAULT_LOG_LIMIT`.
    pub fn new() -> (log: Self)
        ensures
            log.wf(),
            log@ == Seq::<LogEntryView>::empty(),
            log.limit() == DEFAULT_LOG_LIMIT,
    {
        LogBuffer { entries: VecDeque::new(), max_entries: DEFAULT_LOG_LIMIT }
    }

    /// Drops the oldest entries until the log is within its limit.
    fn evict(&mut self)
        requires
            MIN_LOG_LIMIT <= old(self).max_entries <= MAX_LOG_LIMIT,
        ensures
            final(self).wf(),
            final(self).max_entries == old(self).max_entries,
            final(self)@ == most_recent(old(self)@, old(self).limit()),
    {
        let ghost before = self.entries@;
        while self.entries.len() > self.max_entries
            invariant
                self.max_entries == old(self).max_entries,
                self.entries@.len() <= before.len(),
                before.len() <= self.max_entries ==> self.entries@.len() == before.len(),
                before.len() > self.max_entries ==> self.entries@.len() >= self.max_entries,
                self.entries@ == before.subrange(
                    before.len() - self.entries@.len(),
                    before.len() as int,
                ),
            decreases self.entries@.len(),
        {
            let _ = self.entries.pop_front();
        }
    }

    /// Takes `entry` in as the newest one. Where the log is full, the oldest
    /// entry leaves.
    pub fn push(&mut self, entry: LogEntry)
        requires
            old(self).wf(),
        ensures
            final(self).wf(),
            final(self).limit() == old(self).limit(),
            final(self)@ == most_recent(old(self)@.push(entry@), old(self).limit()),
    {
        self.entries.push_back(entry);
        self.evict();
    }

    /// Sets the limit to `max_entries`, brought into the range from
    /// `MIN_LOG_LIMIT` to `MAX_LOG_LIMIT`, and drops the oldest entries
    /// that the new limit has no room for.
    pub fn set_max_entries(&mut self, max_entries: usize)
        requires
            old(self).wf(),
        ensures
            final(self).wf(),
            final(self).limit() == clamped_limit(max_entries as int),
            final(self)@ == most_recent(old(self)@, clamped_limit(max_entries as int)),
    {
        let limit = if max_entries < MIN_LOG_LIMIT {
            MIN_LOG_LIMIT
        } else if max_entries > MAX_LOG_LIMIT {
            MAX_LOG_LIMIT
        } else {
            max_entries
        };
        self.max_entries = limit;
        self.evict();
    }

    /// The limit of the log.
    pub fn max_entries(&self) -> (limit: usize)
        ensures
            limit == self.limit(),
    {
        self.max_entries
    }

    /// The number of entries in the log.
    pub fn len(&self) -> (len: usize)
        ensures
            len == self@.len(),
    {
        self.entries.len()
    }

    /// Copies of the entries, oldest first.
    pub fn entries(&self) -> (entries: Vec<LogEntry>)
        ensures
            entry_views(entries@) == self@,
    {
        let mut entries: Vec<LogEntry> = Vec::new();
        let mut at: usize = 0;
        while at < self.entries.len()
            invariant
                at <= self.entries@.len(),
                entry_views(entries@) == self@.subrange(0, at as int),
            decreases self.entries@.len() - at,
        {
            let copy = self.entries[at].clone();
            assert(entry_views(entries@.push(copy)) =~= entry_views(entries@).push(copy@));
            entries.push(copy);
            at += 1;
        }
        entries
    }

    /// Drops every entry. The limit stays.
    pub fn clear(&mut self)
        requires
            old(self).wf(),
        ensures
            final(self).wf(),
            final(self).limit() == old(self).limit(),
            final(self)@ == Seq::<LogEntryView>::empty(),
    {
        self.entries.clear();
    }
}

} // verus!
