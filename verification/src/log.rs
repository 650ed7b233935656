//! The log, its records and the lookup error.

use crate::model::{appended, next_offset, read_outcome};
use crate::text::not_found_message;
use std::sync::Arc;
use vstd::prelude::*;

verus! {

/// One entry of a log: an opaque payload together with the position at which
/// the log stored it.
#[derive(Debug)]
pub struct Record {
    value: Vec<u8>,
    offset: usize,
}

/// What a record is, as mathematics.
pub struct RecordView {
    /// The payload bytes.
    pub value: Seq<u8>,
    /// The position assigned to the record; `0` until a log has stored it.
    pub offset: nat,
}

impl View for Record {
    type V = RecordView;

    closed spec fn view(&self) -> RecordView {
        RecordView { value: self.value@, offset: self.offset as nat }
    }
}

impl Record {
    /// A record that holds `data` and has not been stored yet.
    pub fn new(data: Vec<u8>) -> (record: Record)
        ensures
            record@ == (RecordView { value: data@, offset: 0 }),
    {
        Record { value: data, offset: 0 }
    }

    /// An independent copy of the payload: the stored bytes cannot be changed
    /// through it.
    pub fn value(&self) -> (bytes: Box<Vec<u8>>)
        ensures
            bytes@ == self@.value,
    {
        let copy = self.value.clone();
        Box::new(copy)
    }

    /// The position at which the log stored this record.
    pub fn offset(&self) -> (offset: usize)
        ensures
            offset == self@.offset,
    {
        self.offset
    }
}

/// The failure of a lookup: no record is stored at the requested offset.
#[derive(Debug, Clone)]
pub struct RecordNotFoundError {
    /// Names the offset that was asked for.
    pub message: String,
}

/// What a read came back with, as mathematics: the payload of the record, or
/// the message of the error.
pub open spec fn outcome_of(found: Result<Arc<Record>, RecordNotFoundError>) -> Result<
    Seq<u8>,
    Seq<char>,
> {
    match found {
        Ok(record) => Ok(record@.value),
        Err(error) => Err(error.message@),
    }
}

impl RecordNotFoundError {
    /// The message, as a string of its own.
    pub fn to_string(&self) -> (text: String)
        ensures
            text@ == self.message@,
    {
        self.message.clone()
    }
}

/// An ordered, append-only collection of records. The record at index `i`
/// carries the offset `i`; nothing is ever removed, replaced or reordered.
///
/// Appending needs the log exclusively (`&mut`), looking up only shared
/// (`&`): any number of lookups may run at once, and no lookup can observe an
/// append halfway.
pub struct Log {
    records: Vec<Arc<Record>>,
}

impl View for Log {
    type V = Seq<Seq<u8>>;

    /// The payloads, in offset order.
    closed spec fn view(&self) -> Seq<Seq<u8>> {
        Seq::new(self.records@.len(), |i: int| self.records@[i].value@)
    }
}

impl Log {
    #[verifier::type_invariant]
    spec fn offsets_match_positions(&self) -> bool {
        forall|i: int| 0 <= i < self.records@.len() ==> (#[trigger] self.records@[i]).offset == i
    }

    /// An empty log.
    pub fn new() -> (log: Log)
        ensures
            log@ == Seq::<Seq<u8>>::empty(),
    {
        let log = Log { records: Vec::new() };
        log
    }

    /// Stores `record` at the end of the log and returns the offset assigned
    /// to it, which is the number of records stored before. Whatever offset
    /// `record` carried is replaced by the assigned one.
    pub fn append(&mut self, record: Record) -> (offset: usize)
        ensures
            offset == next_offset(old(self)@),
            final(self)@ == appended(old(self)@, record@.value),
    {
        proof {
            use_type_invariant(&*self);
        }
        let mut record = record;
        let mut records: Vec<Arc<Record>> = Vec::new();
        std::mem::swap(&mut records, &mut self.records);
        let offset: usize = records.len();
        record.offset = offset;
        records.push(Arc::new(record));
        self.records = records;
        offset
    }

    /// The record stored at `offset`, shared and read-only, or the error when
    /// `offset` is not below the number of stored records.
    pub fn read(&self, offset: usize) -> (found: Result<Arc<Record>, RecordNotFoundError>)
        ensures
            outcome_of(found) == read_outcome(self@, offset as nat),
            found matches Ok(record) ==> record@.offset == offset,
    {
        proof {
            use_type_invariant(self);
        }
        if offset < self.records.len() {
            Ok(self.records[offset].clone())
        } else {
            Err(RecordNotFoundError { message: not_found_message(offset) })
        }
    }
}

/// Reading is repeatable: two reads at one offset of one log come back with
/// the same thing, and at an offset below the length both succeed with
/// identical payloads.
pub proof fn lemma_reads_repeat(
    records: Seq<Seq<u8>>,
    offset: nat,
    first: Result<Arc<Record>, RecordNotFoundError>,
    second: Result<Arc<Record>, RecordNotFoundError>,
)
    requires
        outcome_of(first) == read_outcome(records, offset),
        outcome_of(second) == read_outcome(records, offset),
    ensures
        outcome_of(first) == outcome_of(second),
        offset < records.len() ==> first is Ok && second is Ok && first->Ok_0@.value
            == second->Ok_0@.value,
        offset >= records.len() ==> first is Err && second is Err && first->Err_0.message@
            == second->Err_0.message@,
{
}

} // verus!
