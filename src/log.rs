//! The rolling activity log: the most recent commands, newest first.

use vstd::prelude::*;

verus! {

/// How many entries the log keeps.
pub const LOG_CAPACITY: usize = 10;

/// One logged command and the time it was logged at.
#[derive(Clone, Debug)]
pub struct LogEntry {
    pub timestamp: String,
    pub command: String,
}

/// The most recent entries, newest first, never more than [`LOG_CAPACITY`].
pub struct ActivityLog {
    entries: Vec<LogEntry>,
}

impl View for ActivityLog {
    type V = Seq<(Seq<char>, Seq<char>)>;

    closed spec fn view(&self) -> Seq<(Seq<char>, Seq<char>)> {
        self.entries@.map_values(|e: LogEntry| (e.timestamp@, e.command@))
    }
}

impl ActivityLog {
    /// An empty log.
    pub fn new() -> (r: ActivityLog)
        ensures
            r@ == Seq::<(Seq<char>, Seq<char>)>::empty(),
    {
        let r = ActivityLog { entries: Vec::new() };
        proof {
            assert(r@ =~= Seq::<(Seq<char>, Seq<char>)>::empty());
        }
        r
    }

    /// Adds an entry at the front; the oldest entry leaves once the log holds
    /// more than [`LOG_CAPACITY`].
    pub fn add(&mut self, timestamp: String, command: String)
        requires
            old(self)@.len() <= LOG_CAPACITY,
        ensures
            final(self)@ == seq![(timestamp@, command@)].add(old(self)@).take(
                if old(self)@.len() < LOG_CAPACITY { (old(self)@.len() + 1) as int } else { LOG_CAPACITY as int },
            ),
            final(self)@.len() <= LOG_CAPACITY,
    {
        let ghost before = self@;
        let entry = LogEntry { timestamp, command };
        self.entries.insert(0, entry);
        let ghost pushed = self@;
        proof {
            assert(pushed =~= seq![(timestamp@, command@)].add(before));
        }
        if self.entries.len() > LOG_CAPACITY {
            self.entries.pop();
            proof {
                assert(self@ =~= pushed.take(LOG_CAPACITY as int));
            }
        } else {
            proof {
                assert(pushed =~= pushed.take((before.len() + 1) as int));
            }
        }
    }

    /// The number of entries.
    pub fn len(&self) -> (r: usize)
        ensures
            r == self@.len(),
    {
        self.entries.len()
    }

    /// The entry at `i`, counting from the newest.
    pub fn get(&self, i: usize) -> (r: &LogEntry)
        requires
            i < self@.len(),
        ensures
            (r.timestamp@, r.command@) == self@[i as int],
    {
        &self.entries[i]
    }
}

} // verus!
