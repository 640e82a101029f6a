//! The last queries, kept for a look at them.

use std::collections::VecDeque;
use vstd::prelude::*;

verus! {

/// A query and what was done with it.
#[derive(Debug)]
pub struct QueryLogEntry {
    pub timestamp: u64,
    pub domain: String,
    pub qtype: String,
    pub decision: QueryDecision,
    pub source_ip: String,
    pub response_time_ms: u64,
}

/// What was decided about a query.
#[derive(Clone, Copy, Debug, PartialEq, Eq, Structural)]
pub enum QueryDecision {
    Allowed,
    Blocked,
    Passthrough,
}

/// What the filter says about a name.
#[derive(Clone, Copy, Debug, PartialEq, Eq, Structural)]
pub enum FilterDecision {
    Allow,
    Block,
    Neutral,
}

impl From<FilterDecision> for QueryDecision {
    fn from(decision: FilterDecision) -> QueryDecision {
        match decision {
            FilterDecision::Allow => QueryDecision::Allowed,
            FilterDecision::Block => QueryDecision::Blocked,
            FilterDecision::Neutral => QueryDecision::Passthrough,
        }
    }
}

impl vstd::std_specs::convert::FromSpecImpl<FilterDecision> for QueryDecision {
    open spec fn obeys_from_spec() -> bool {
        true
    }

    open spec fn from_spec(decision: FilterDecision) -> QueryDecision {
        match decision {
            FilterDecision::Allow => QueryDecision::Allowed,
            FilterDecision::Block => QueryDecision::Blocked,
            FilterDecision::Neutral => QueryDecision::Passthrough,
        }
    }
}

/// The last queries, oldest first.
#[derive(Debug)]
pub struct QueryLog {
    entries: VecDeque<QueryLogEntry>,
    max_entries: usize,
}

/// The entries after one more: the oldest goes where there is no room.
pub open spec fn pushed(
    entries: Seq<QueryLogEntry>,
    max_entries: usize,
    entry: QueryLogEntry,
) -> Seq<QueryLogEntry> {
    if entries.len() >= max_entries && entries.len() > 0 {
        entries.skip(1).push(entry)
    } else {
        entries.push(entry)
    }
}

/// The entries after several more, in their order.
pub open spec fn pushed_all(
    entries: Seq<QueryLogEntry>,
    max_entries: usize,
    more: Seq<QueryLogEntry>,
) -> Seq<QueryLogEntry>
    decreases more.len(),
{
    if more.len() == 0 {
        entries
    } else {
        pushed(pushed_all(entries, max_entries, more.drop_last()), max_entries, more.last())
    }
}

impl QueryLog {
    /// The entries, oldest first.
    pub closed spec fn spec_entries(&self) -> Seq<QueryLogEntry> {
        self.entries@
    }

    /// How many entries there is room for.
    pub closed spec fn room(&self) -> usize {
        self.max_entries
    }

    /// Whether there are no more entries than there is room for; the newest one always
    /// has room.
    pub open spec fn well_formed(&self) -> bool {
        self.spec_entries().len() <= self.room() || self.spec_entries().len() <= 1
    }

    /// An empty log.
    pub fn new(max_entries: usize) -> (r: QueryLog)
        ensures
            r.well_formed(),
            r.spec_entries() == Seq::<QueryLogEntry>::empty(),
            r.room() == max_entries,
    {
        let capacity: usize = if max_entries < 1024 {
            max_entries
        } else {
            1024
        };
        QueryLog { entries: VecDeque::with_capacity(capacity), max_entries }
    }

    /// Adds an entry; the oldest one goes where there is no room.
    pub fn push(&mut self, entry: QueryLogEntry)
        requires
            old(self).well_formed(),
        ensures
            final(self).well_formed(),
            final(self).spec_entries() == pushed(old(self).spec_entries(), old(self).room(), entry),
            final(self).room() == old(self).room(),
    {
        if self.entries.len() >= self.max_entries {
            let _ = self.entries.pop_front();
        }
        self.entries.push_back(entry);
        assert(self.entries@ =~= pushed(old(self).spec_entries(), old(self).room(), entry));
    }

    /// The entries, oldest first.
    pub fn entries(&self) -> (r: &VecDeque<QueryLogEntry>)
        ensures
            r@ == self.spec_entries(),
    {
        &self.entries
    }

    /// How many entries there are.
    pub fn len(&self) -> (r: usize)
        ensures
            r == self.spec_entries().len(),
    {
        self.entries.len()
    }

    /// Whether there is no entry.
    pub fn is_empty(&self) -> (r: bool)
        ensures
            r == (self.spec_entries().len() == 0),
    {
        self.entries.len() == 0
    }

    /// How many entries there is room for.
    pub fn max_entries(&self) -> (r: usize)
        ensures
            r == self.room(),
    {
        self.max_entries
    }
}

/// However many entries come, the log holds the last of them that there is room for, in
/// the order in which they came.
pub proof fn law_log_holds_the_last_entries(max_entries: usize, more: Seq<QueryLogEntry>)
    requires
        max_entries > 0,
    ensures
        pushed_all(seq![], max_entries, more) == if more.len() <= max_entries {
            more
        } else {
            more.skip(more.len() - max_entries)
        },
    decreases more.len(),
{
    if more.len() > 0 {
        law_log_holds_the_last_entries(max_entries, more.drop_last());
        assert(more =~= more.drop_last().push(more.last()));
        if more.len() > max_entries {
            assert(pushed_all(seq![], max_entries, more) =~= more.skip(more.len() - max_entries));
        }
    } else {
        assert(more =~= seq![]);
    }
}

/// A log without room keeps the newest entry alone.
pub proof fn law_newest_entry_has_room(more: Seq<QueryLogEntry>)
    requires
        more.len() > 0,
    ensures
        pushed_all(seq![], 0, more) == seq![more.last()],
    decreases more.len(),
{
    if more.len() == 1 {
        let none = Seq::<QueryLogEntry>::empty();
        assert(pushed_all(none, 0, more.drop_last()) == none);
        assert(pushed_all(none, 0, more) == pushed(none, 0, more.last()));
        assert(pushed_all(seq![], 0, more) =~= seq![more.last()]);
    } else {
        law_newest_entry_has_room(more.drop_last());
        assert(pushed_all(seq![], 0, more) =~= seq![more.last()]);
    }
}

/// What is noted of a query is what the filter said of its name.
pub proof fn law_decisions_follow_the_filter(d: FilterDecision)
    ensures
        <QueryDecision as vstd::std_specs::convert::FromSpec<FilterDecision>>::from_spec(d) is Allowed
            <==> d is Allow,
        <QueryDecision as vstd::std_specs::convert::FromSpec<FilterDecision>>::from_spec(d) is Blocked
            <==> d is Block,
        <QueryDecision as vstd::std_specs::convert::FromSpec<FilterDecision>>::from_spec(
            d,
        ) is Passthrough <==> d is Neutral,
{
}

} // verus!
