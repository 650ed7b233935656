//! What a server in front of the log answers: the decisions between a
//! request that has been parsed and a reply that has yet to be sent.

use crate::log::{outcome_of, Record, RecordNotFoundError, RecordView};
use crate::model::{after_appends, appended, next_offset, read_outcome};
use crate::shared::SharedLog;
use crate::text::not_found_text;
use std::sync::Arc;
use vstd::prelude::*;
use vstd::string::*;
use vstd::utf8::{decode_utf8, encode_utf8, valid_utf8};

verus! {

/// How a request ended.
#[derive(Clone, Copy, Debug, PartialEq, Eq, Structural)]
pub enum Status {
    /// The request was served.
    Success,
    /// The request carried no usable payload.
    BadRequest,
    /// No record is stored at the requested offset.
    NotFound,
    /// The stored payload is not text.
    InternalServerError,
}

impl Status {
    /// The HTTP status code that stands for `self`.
    pub open spec fn code_spec(self) -> u16 {
        match self {
            Status::Success => 200,
            Status::BadRequest => 400,
            Status::NotFound => 404,
            Status::InternalServerError => 500,
        }
    }

    /// The HTTP status code that stands for `self`.
    pub fn code(self) -> (code: u16)
        ensures
            code == self.code_spec(),
    {
        match self {
            Status::Success => 200,
            Status::BadRequest => 400,
            Status::NotFound => 404,
            Status::InternalServerError => 500,
        }
    }
}

/// A reply in plain text.
#[derive(Debug, Clone)]
pub struct Reply {
    /// How the request ended.
    pub status: Status,
    /// The text to send.
    pub body: String,
}

/// What a reply is, as mathematics.
pub struct ReplyView {
    /// How the request ended.
    pub status: Status,
    /// The text to send.
    pub body: Seq<char>,
}

impl View for Reply {
    type V = ReplyView;

    open spec fn view(&self) -> ReplyView {
        ReplyView { status: self.status, body: self.body@ }
    }
}

/// What the error of `std::str::from_utf8` displays for `bytes` that are not
/// UTF-8. Nothing is claimed of it but that it depends on `bytes` alone.
pub uninterp spec fn decoding_failure_text(bytes: Seq<u8>) -> Seq<char>;

/// The reply to a create request that carried no payload.
pub open spec fn empty_data_reply() -> ReplyView {
    ReplyView { status: Status::BadRequest, body: "Empty data"@ }
}

/// The reply to a read request, given what the lookup came back with: the
/// payload of the record, or the message of the error.
pub open spec fn reply_to_read(found: Result<Seq<u8>, Seq<char>>) -> ReplyView {
    match found {
        Ok(payload) => if valid_utf8(payload) {
            ReplyView { status: Status::Success, body: decode_utf8(payload) }
        } else {
            ReplyView {
                status: Status::InternalServerError,
                body: decoding_failure_text(payload),
            }
        },
        Err(message) => ReplyView { status: Status::NotFound, body: message },
    }
}

/// Calls `std::str::from_utf8` and hands both outcomes back as strings of
/// their own. Taken on trust, not proved: the call succeeds exactly on the
/// byte strings that are valid UTF-8; the text of a success consists of the
/// characters that the bytes encode; the string of a failure is what the
/// `Utf8Error` displays.
#[verifier::external_body]
fn decode_text(bytes: &[u8]) -> (decoded: Result<String, String>)
    ensures
        match decoded {
            Ok(text) => valid_utf8(bytes@) && text@ == decode_utf8(bytes@),
            Err(reason) => !valid_utf8(bytes@) && reason@ == decoding_failure_text(bytes@),
        },
{
    match std::str::from_utf8(bytes) {
        Ok(text) => Ok(text.to_string()),
        Err(error) => Err(error.to_string()),
    }
}

/// The record to store for a create request with the payload `data`, or the
/// reply that turns the request down when it carried none. The record holds
/// the bytes of the text as they are.
pub fn record_to_store(data: Option<String>) -> (admitted: Result<Record, Reply>)
    ensures
        match data {
            Some(text) => admitted is Ok && admitted->Ok_0@ == (RecordView {
                value: encode_utf8(text@),
                offset: 0,
            }),
            None => admitted is Err && admitted->Err_0@ == empty_data_reply(),
        },
{
    match data {
        Some(text) => Ok(Record::new(text.as_str().as_bytes_vec())),
        None => Err(Reply { status: Status::BadRequest, body: String::from_str("Empty data") }),
    }
}

/// The reply for a payload that has been through the decoder: the text, and
/// the request is served; or the decoder's words, and the request has failed.
pub fn decoded_reply(decoded: Result<String, String>) -> (reply: Reply)
    ensures
        reply@ == match decoded {
            Ok(text) => ReplyView { status: Status::Success, body: text@ },
            Err(reason) => ReplyView { status: Status::InternalServerError, body: reason@ },
        },
{
    match decoded {
        Ok(text) => Reply { status: Status::Success, body: text },
        Err(reason) => Reply { status: Status::InternalServerError, body: reason },
    }
}

/// The reply to a read request, given what the lookup came back with: the
/// payload as text where it is text, the decoder's words where it is not, and
/// the error's message where nothing was found.
pub fn read_reply(found: Result<Arc<Record>, RecordNotFoundError>) -> (reply: Reply)
    ensures
        reply@ == reply_to_read(outcome_of(found)),
{
    match found {
        Ok(record) => {
            let bytes = record.value();
            decoded_reply(decode_text(bytes.as_slice()))
        },
        Err(error) => Reply { status: Status::NotFound, body: error.to_string() },
    }
}

/// Serves a create request: stores the payload and returns its offset, or
/// turns the request down, without touching the log, when it carried none.
pub fn create_log(log: &SharedLog, data: Option<String>) -> (created: Result<usize, Reply>)
    ensures
        data is Some <==> created is Ok,
        created matches Err(reply) ==> reply@ == empty_data_reply(),
{
    match record_to_store(data) {
        Ok(record) => Ok(log.append(record)),
        Err(reply) => Err(reply),
    }
}

/// Serves a read request for the record at `id`: the reply to whatever the
/// lookup finds there.
pub fn read_log(log: &SharedLog, id: usize) -> (reply: Reply)
    ensures
        reply@ == reply_to_read(Err(not_found_text(id as nat))) || exists|payload: Seq<u8>|
            reply@ == #[trigger] reply_to_read(Ok(payload)),
{
    read_reply(log.read(id))
}

/// Text that was stored is read back as it was, and the request is served.
pub proof fn lemma_text_reads_back(text: Seq<char>)
    ensures
        reply_to_read(Ok(encode_utf8(text))) == (ReplyView { status: Status::Success, body: text }),
{
    vstd::utf8::encode_utf8_valid_utf8(text);
    vstd::utf8::encode_utf8_decode_utf8(text);
}

/// Text that a create request stored is served to every later read request
/// for the offset that the create request was given, however many records
/// have been stored in between.
pub proof fn lemma_created_text_is_served(
    records: Seq<Seq<u8>>,
    text: Seq<char>,
    later: Seq<Seq<u8>>,
)
    ensures
        reply_to_read(
            read_outcome(
                after_appends(appended(records, encode_utf8(text)), later),
                next_offset(records),
            ),
        ) == (ReplyView { status: Status::Success, body: text }),
{
    crate::model::lemma_appends_extend(appended(records, encode_utf8(text)), later);
    lemma_text_reads_back(text);
}

/// A read request for an offset that no create request has been given yet is
/// answered with "not found" and the message that names the offset.
pub proof fn lemma_missing_offset_is_reported(records: Seq<Seq<u8>>, id: nat)
    requires
        id >= records.len(),
    ensures
        reply_to_read(read_outcome(records, id)) == (ReplyView {
            status: Status::NotFound,
            body: not_found_text(id),
        }),
{
}

/// A reply says "not found" exactly when the lookup found nothing: neither a
/// record that is text nor one that is not text is ever reported that way.
pub proof fn lemma_not_found_means_missing(found: Result<Seq<u8>, Seq<char>>)
    ensures
        reply_to_read(found).status == Status::NotFound <==> found is Err,
        reply_to_read(found).status != Status::BadRequest,
{
}

/// Different outcomes have different status codes.
pub proof fn lemma_codes_tell_statuses_apart(a: Status, b: Status)
    ensures
        a.code_spec() == b.code_spec() <==> a == b,
{
}

} // verus!
