//! JSON documents as the `json` crate holds them, seen through what they
//! carry under each key.
//!
//! What is marked as assumed here is taken from the `json` crate without
//! proof; the rest of the library is proved from it.

use vstd::prelude::*;
use vstd::string::StringSliceAdditionalSpecFns;
use json::JsonValue;
use crate::guard::digits_bounded;

verus! {

/// `json::JsonValue`, a parsed JSON value. It is opaque here: contracts know
/// of it what `text_members` says.
#[verifier::external_type_specification]
#[verifier::external_body]
pub struct ExJsonValue(JsonValue);

/// `json::Error`, the reason `json::parse` gives for refusing a text.
#[verifier::external_type_specification]
#[verifier::external_body]
pub struct ExJsonError(json::Error);

/// The strings a JSON object holds, by key. A member whose value is not a
/// string has no entry, and a value that is not an object has none at all.
pub uninterp spec fn text_members(doc: JsonValue) -> Map<Seq<char>, Seq<char>>;

/// The members of a JSON object that hold anything but a string, by key,
/// each as the JSON text that `JsonValue::dump` writes for it. A value that
/// is not an object has none.
pub uninterp spec fn other_members(doc: JsonValue) -> Map<Seq<char>, Seq<char>>;

/// What `json::parse` makes of `source`: the text members of the value it
/// returns, or `None` where it refuses the text.
pub uninterp spec fn parsed_members(source: Seq<char>) -> Option<Map<Seq<char>, Seq<char>>>;

/// Assumed of `json::parse`: it reads the whole of `source` as one JSON value
/// or refuses it, and the outcome depends on `source` alone. Which texts it
/// accepts is not stated.
///
/// The parser counts the digits of a fraction down in an `i16` without a
/// test, one step for each digit, so a fraction of more digits than an `i16`
/// holds can end in a panic. A text without so many digits in a row holds no
/// such fraction.
pub assume_specification[ json::parse ](source: &str) -> (parsed: json::Result<JsonValue>)
    requires
        digits_bounded(source.spec_bytes()),
    ensures
        match parsed {
            Ok(doc) => parsed_members(source@) == Some(text_members(doc)),
            Err(_) => parsed_members(source@) is None,
        },
;

/// Assumed of `JsonValue::remove`: it takes the member under `key` out of an
/// object and leaves every other member as it was, whatever it holds; a value
/// that is not an object stays as it was.
pub assume_specification[ JsonValue::remove ](doc: &mut JsonValue, key: &str) -> (removed:
    JsonValue)
    ensures
        text_members(*final(doc)) == text_members(*old(doc)).remove(key@),
        other_members(*final(doc)) == other_members(*old(doc)).remove(key@),
;

/// Assumed of indexing a `JsonValue` by a key, and of `JsonValue::as_str` on
/// what is found: together they give the string under `key` where `doc` is an
/// object that holds a string there, and nothing otherwise. A key that holds
/// a string holds nothing else.
#[verifier::external_body]
pub(crate) fn text_member(doc: &JsonValue, key: &str) -> (text: Option<String>)
    ensures
        match text {
            Some(found) => {
                &&& text_members(*doc).dom().contains(key@)
                &&& text_members(*doc)[key@] == found@
                &&& !other_members(*doc).dom().contains(key@)
            },
            None => !text_members(*doc).dom().contains(key@),
        },
{
    doc[key].as_str().map(String::from)
}

/// `rest` is `doc` without its member `key`: every other member is there as
/// it was, whether it holds a string or not.
pub open spec fn trimmed(doc: JsonValue, rest: JsonValue, key: Seq<char>) -> bool {
    &&& text_members(rest) == text_members(doc).remove(key)
    &&& other_members(rest) == other_members(doc).remove(key)
}

/// The document without its member `key`.
pub fn without_member(doc: JsonValue, key: &str) -> (rest: JsonValue)
    ensures
        trimmed(doc, rest, key@),
{
    let mut doc = doc;
    let _ = doc.remove(key);
    doc
}

} // verus!
