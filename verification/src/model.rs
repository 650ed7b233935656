//! The log as mathematics: the sequence of its payloads, in offset order.
//!
//! The contracts of the executable operations are stated over the functions
//! of this module, and what holds of every run of appends and reads is proved
//! here.

use crate::text::not_found_text;
use vstd::prelude::*;

verus! {

/// What a read at `offset` comes back with from a log whose payloads are
/// `records`: the payload at that position, or, when the position is not
/// below the length, the message that names the offset.
pub open spec fn read_outcome(records: Seq<Seq<u8>>, offset: nat) -> Result<Seq<u8>, Seq<char>> {
    if offset < records.len() {
        Ok(records[offset as int])
    } else {
        Err(not_found_text(offset))
    }
}

/// The payloads of a log after one append of `payload`.
pub open spec fn appended(records: Seq<Seq<u8>>, payload: Seq<u8>) -> Seq<Seq<u8>> {
    records.push(payload)
}

/// The offset that the next append to a log with payloads `records` returns.
pub open spec fn next_offset(records: Seq<Seq<u8>>) -> nat {
    records.len()
}

/// The payloads of a log after appending each of `payloads` in turn.
pub open spec fn after_appends(records: Seq<Seq<u8>>, payloads: Seq<Seq<u8>>) -> Seq<Seq<u8>>
    decreases payloads.len(),
{
    if payloads.len() == 0 {
        records
    } else {
        after_appends(appended(records, payloads.first()), payloads.drop_first())
    }
}

/// The offsets that those appends return, in the order of the calls.
pub open spec fn offsets_of_appends(records: Seq<Seq<u8>>, payloads: Seq<Seq<u8>>) -> Seq<nat>
    decreases payloads.len(),
{
    if payloads.len() == 0 {
        Seq::empty()
    } else {
        seq![next_offset(records)] + offsets_of_appends(
            appended(records, payloads.first()),
            payloads.drop_first(),
        )
    }
}

/// An append is visible at once: a read at the offset that it returned
/// succeeds with the payload that it stored.
pub proof fn lemma_appended_is_readable(records: Seq<Seq<u8>>, payload: Seq<u8>)
    ensures
        read_outcome(appended(records, payload), next_offset(records)) == Ok::<
            Seq<u8>,
            Seq<char>,
        >(payload),
{
}

/// A run of appends adds the payloads at the end, in call order, and leaves
/// what was stored before untouched.
pub proof fn lemma_appends_extend(records: Seq<Seq<u8>>, payloads: Seq<Seq<u8>>)
    ensures
        after_appends(records, payloads) == records + payloads,
    decreases payloads.len(),
{
    if payloads.len() > 0 {
        lemma_appends_extend(appended(records, payloads.first()), payloads.drop_first());
    }
}

/// The k-th append of a run returns the length before the run plus k.
pub proof fn lemma_offsets_count_up(records: Seq<Seq<u8>>, payloads: Seq<Seq<u8>>)
    ensures
        offsets_of_appends(records, payloads).len() == payloads.len(),
        forall|k: int|
            0 <= k < payloads.len() ==> #[trigger] offsets_of_appends(records, payloads)[k]
                == records.len() + k,
    decreases payloads.len(),
{
    if payloads.len() > 0 {
        lemma_offsets_count_up(appended(records, payloads.first()), payloads.drop_first());
    }
}

/// The offsets returned by any number of appends to an empty log are exactly
/// `0, 1, ..., n - 1`: each once, none missing, in call order.
pub proof fn lemma_offsets_are_contiguous(payloads: Seq<Seq<u8>>)
    ensures
        offsets_of_appends(Seq::empty(), payloads) == Seq::new(
            payloads.len(),
            |k: int| k as nat,
        ),
        offsets_of_appends(Seq::empty(), payloads).no_duplicates(),
        offsets_of_appends(Seq::empty(), payloads).to_set() == Set::new(
            |offset: nat| offset < payloads.len(),
        ),
{
    let offsets = offsets_of_appends(Seq::empty(), payloads);
    lemma_offsets_count_up(Seq::empty(), payloads);
    assert forall|offset: nat| offset < payloads.len() implies offsets.to_set().contains(
        offset,
    ) by {
        assert(offsets[offset as int] == offset);
    }
}

/// After appending `payloads` to an empty log, a read at any offset below
/// their number succeeds with the payload of the append that returned that
/// offset.
pub proof fn lemma_read_finds_appended(payloads: Seq<Seq<u8>>, offset: nat)
    requires
        offset < payloads.len(),
    ensures
        offsets_of_appends(Seq::empty(), payloads)[offset as int] == offset,
        read_outcome(after_appends(Seq::empty(), payloads), offset) == Ok::<Seq<u8>, Seq<char>>(
            payloads[offset as int],
        ),
{
    lemma_appends_extend(Seq::empty(), payloads);
    lemma_offsets_count_up(Seq::empty(), payloads);
}

/// After appending `payloads` to an empty log, a read at their number, or at
/// any offset beyond it, fails as not found.
pub proof fn lemma_read_past_end_fails(payloads: Seq<Seq<u8>>, offset: nat)
    requires
        offset >= payloads.len(),
    ensures
        read_outcome(after_appends(Seq::empty(), payloads), offset) == Err::<
            Seq<u8>,
            Seq<char>,
        >(not_found_text(offset)),
{
    lemma_appends_extend(Seq::empty(), payloads);
}

/// What a read has found once, every later read at that offset finds again,
/// however many appends come between them.
pub proof fn lemma_stored_records_stay(
    records: Seq<Seq<u8>>,
    payloads: Seq<Seq<u8>>,
    offset: nat,
)
    requires
        offset < records.len(),
    ensures
        read_outcome(after_appends(records, payloads), offset) == read_outcome(records, offset),
{
    lemma_appends_extend(records, payloads);
}

/// A log only grows: a run of appends adds exactly one record per call.
pub proof fn lemma_length_counts_appends(records: Seq<Seq<u8>>, payloads: Seq<Seq<u8>>)
    ensures
        after_appends(records, payloads).len() == records.len() + payloads.len(),
{
    lemma_appends_extend(records, payloads);
}

/// Appends that several callers make at once reach the log one at a time, in
/// some order. Whatever that order `serial` is, `callers` callers that append
/// `calls` records each leave exactly `callers * calls` records behind, and
/// the offsets handed out fill `0, 1, ..., callers * calls - 1` with no offset
/// handed out twice.
pub proof fn lemma_serialized_appends_share_no_offset(
    callers: nat,
    calls: nat,
    serial: Seq<Seq<u8>>,
)
    requires
        serial.len() == callers * calls,
    ensures
        after_appends(Seq::empty(), serial).len() == callers * calls,
        offsets_of_appends(Seq::empty(), serial).len() == callers * calls,
        offsets_of_appends(Seq::empty(), serial).no_duplicates(),
        offsets_of_appends(Seq::empty(), serial).to_set() == Set::new(
            |offset: nat| offset < callers * calls,
        ),
{
    lemma_length_counts_appends(Seq::empty(), serial);
    lemma_offsets_are_contiguous(serial);
}

} // verus!
