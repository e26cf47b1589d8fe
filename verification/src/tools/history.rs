//! The session's record of recent tool calls: a ring of the last fifty.

use std::collections::VecDeque;
use vstd::prelude::*;

verus! {

#[verifier::external_type_specification]
#[verifier::external_body]
pub struct ExInstant(std::time::Instant);

/// A single tool call entry for the session history ring buffer.
pub struct ToolCallEntry {
    pub tool: String,
    pub success: bool,
    pub timestamp: std::time::Instant,
}

/// The number of calls the history keeps.
pub const HISTORY_CAPACITY: usize = 50;

/// The most recent tool calls, oldest first.
pub struct CallHistory {
    entries: VecDeque<ToolCallEntry>,
}

impl CallHistory {
    /// The recorded calls, oldest first.
    pub closed spec fn calls(self) -> Seq<ToolCallEntry> {
        self.entries@
    }

    /// The history never holds more than its capacity.
    pub closed spec fn wf(self) -> bool {
        self.entries@.len() <= HISTORY_CAPACITY
    }

    /// An empty history.
    pub fn new() -> (r: Self)
        ensures
            r.wf(),
            r.calls().len() == 0,
    {
        CallHistory { entries: VecDeque::new() }
    }

    /// Records a call; when the history is full the oldest call is dropped.
    pub fn record(&mut self, entry: ToolCallEntry)
        requires
            old(self).wf(),
        ensures
            final(self).wf(),
            final(self).calls() == if old(self).calls().len() == HISTORY_CAPACITY {
                old(self).calls().drop_first().push(entry)
            } else {
                old(self).calls().push(entry)
            },
    {
        proof {
            broadcast use vstd::std_specs::vecdeque::group_vec_dequeue_axioms;
        }
        if self.entries.len() == HISTORY_CAPACITY {
            self.entries.pop_front();
        }
        self.entries.push_back(entry);
    }

    /// The number of recorded calls.
    pub fn len(&self) -> (r: usize)
        ensures
            r == self.calls().len(),
    {
        proof {
            broadcast use vstd::std_specs::vecdeque::group_vec_dequeue_axioms;
        }
        self.entries.len()
    }
}

/// Recording keeps at most the capacity, and the newest call always comes last.
pub proof fn lemma_history_bounded(before: Seq<ToolCallEntry>, entry: ToolCallEntry, after: Seq<ToolCallEntry>)
    requires
        before.len() <= HISTORY_CAPACITY,
        after == if before.len() == HISTORY_CAPACITY {
            before.drop_first().push(entry)
        } else {
            before.push(entry)
        },
    ensures
        after.len() <= HISTORY_CAPACITY,
        after.len() == if before.len() == HISTORY_CAPACITY {
            HISTORY_CAPACITY as nat
        } else {
            before.len() + 1
        },
        after.last() == entry,
{
}

} // verus!
