//! A log behind one reader/writer lock, for callers on many threads.

use crate::log::{outcome_of, Log, Record, RecordNotFoundError};
use crate::model::read_outcome;
use std::sync::Arc;
use vstd::prelude::*;
use vstd::rwlock::{RwLock, RwLockPredicate};

verus! {

/// What the lock may hold: any log. A `Log` keeps its own invariant, so the
/// lock has nothing to add.
struct AnyLog;

impl RwLockPredicate<Log> for AnyLog {
    open spec fn inv(self, log: Log) -> bool {
        true
    }
}

/// A handle to a log that any number of threads share. Clones of a handle
/// reach the same log.
///
/// Each `append` holds the lock exclusively from reading the length to
/// storing the record, so appends are totally ordered and no two of them are
/// assigned the same offset. Each `read` holds the lock shared, so reads run
/// alongside each other and see either the whole of an append or nothing of
/// it. What a call returns is what `Log::append` or `Log::read` returns on
/// the log as it is while the call holds the lock.
#[derive(Clone)]
pub struct SharedLog {
    inner: Arc<RwLock<Log, AnyLog>>,
}

impl SharedLog {
    /// A handle to a new, empty log.
    pub fn new() -> (shared: SharedLog) {
        SharedLog { inner: Arc::new(RwLock::new(Log::new(), Ghost(AnyLog))) }
    }

    /// Appends `record` under the exclusive lock and returns its offset.
    pub fn append(&self, record: Record) -> (offset: usize) {
        let (mut log, guard) = self.inner.acquire_write();
        let offset = log.append(record);
        guard.release_write(log);
        offset
    }

    /// Reads at `offset` under the shared lock. What comes back is what a
    /// read at `offset` comes back with from the log as some number of
    /// appends have left it: a record carries `offset`, the error names it.
    pub fn read(&self, offset: usize) -> (found: Result<Arc<Record>, RecordNotFoundError>)
        ensures
            exists|records: Seq<Seq<u8>>|
                outcome_of(found) == #[trigger] read_outcome(records, offset as nat),
            found matches Ok(record) ==> record@.offset == offset,
    {
        let guard = self.inner.acquire_read();
        let found = guard.borrow().read(offset);
        guard.release_read();
        found
    }
}

} // verus!
