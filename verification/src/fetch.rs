//! What comes back from one GET, and what it is worth.

use vstd::prelude::*;
use vstd::string::StringSliceAdditionalSpecFns;
use vstd::utf8::encode_utf8;
use json::JsonValue;
use crate::document::{parsed_members, text_members};
use crate::guard::{digits_bounded, has_bounded_digits};

verus! {

/// The only status that counts as an answer.
pub const HTTP_OK: u16 = 200;

/// What the transport reports of one GET.
#[derive(Debug, PartialEq, Eq)]
pub enum Reply {
    /// No response was had: the connection failed, or the body could not be read.
    Unreachable,
    /// A response arrived.
    Answered { status: u16, body: String },
}

/// Why a GET gave no document.
#[derive(Clone, Copy, Debug, PartialEq, Eq, Structural)]
pub enum FetchError {
    /// No response was had.
    Transport,
    /// The response had another status than 200.
    Status(u16),
    /// The body is not JSON, or holds more digits in a row than any number
    /// that is read.
    Body,
}

/// A reply as contracts see it.
pub enum ReplyView {
    Unreachable,
    Answered { status: u16, body: Seq<char> },
}

impl View for Reply {
    type V = ReplyView;

    open spec fn view(&self) -> ReplyView {
        match self {
            Reply::Unreachable => ReplyView::Unreachable,
            Reply::Answered { status, body } => ReplyView::Answered {
                status: *status,
                body: body@,
            },
        }
    }
}

/// A fetched document as contracts see it: its text members.
pub open spec fn fetched_view(fetched: Result<JsonValue, FetchError>) -> Result<
    Map<Seq<char>, Seq<char>>,
    FetchError,
> {
    match fetched {
        Ok(doc) => Ok(text_members(doc)),
        Err(e) => Err(e),
    }
}

/// What a reply is worth: the document in its body, where the status is 200
/// and the body is JSON. A body of any length is read; one with more than
/// `MAX_DIGIT_RUN` digits in a row is not.
pub open spec fn reply_outcome(reply: ReplyView) -> Result<Map<Seq<char>, Seq<char>>, FetchError> {
    match reply {
        ReplyView::Unreachable => Err(FetchError::Transport),
        ReplyView::Answered { status, body } => if status != HTTP_OK {
            Err(FetchError::Status(status))
        } else if !digits_bounded(encode_utf8(body)) {
            Err(FetchError::Body)
        } else {
            match parsed_members(body) {
                Some(members) => Ok(members),
                None => Err(FetchError::Body),
            }
        },
    }
}

/// Accepts status 200 and no other.
pub fn check_status(status: u16) -> (checked: Result<(), FetchError>)
    ensures
        status == HTTP_OK ==> checked is Ok,
        status != HTTP_OK ==> checked == Err::<(), FetchError>(FetchError::Status(status)),
{
    if status == HTTP_OK {
        Ok(())
    } else {
        Err(FetchError::Status(status))
    }
}

/// Takes the outcome of parsing a body: the document, or the body as the fault.
pub fn document_of(parsed: json::Result<JsonValue>) -> (fetched: Result<JsonValue, FetchError>)
    ensures
        match parsed {
            Ok(doc) => fetched == Ok::<JsonValue, FetchError>(doc),
            Err(_) => fetched == Err::<JsonValue, FetchError>(FetchError::Body),
        },
{
    match parsed {
        Ok(doc) => Ok(doc),
        Err(_) => Err(FetchError::Body),
    }
}

/// Reads the document out of a reply. A reply that did not arrive, one with
/// another status than 200 and one whose body is not JSON each give their
/// fault; the body is not looked at unless the status is 200.
pub fn interpret_reply(reply: &Reply) -> (fetched: Result<JsonValue, FetchError>)
    ensures
        fetched_view(fetched) == reply_outcome(reply@),
        reply is Unreachable ==> fetched == Err::<JsonValue, FetchError>(FetchError::Transport),
        reply matches Reply::Answered { status, .. } ==> (*status != HTTP_OK ==> fetched == Err::<
            JsonValue,
            FetchError,
        >(FetchError::Status(*status))),
{
    match reply {
        Reply::Unreachable => Err(FetchError::Transport),
        Reply::Answered { status, body } => {
            match check_status(*status) {
                Err(e) => Err(e),
                Ok(()) => if has_bounded_digits(body.as_str()) {
                    document_of(json::parse(body.as_str()))
                } else {
                    Err(FetchError::Body)
                },
            }
        },
    }
}

} // verus!
