//! Addresses: the one a symbol's fundamentals live at, and those a document
//! refers to.

use vstd::prelude::*;
use vstd::string::{StringExecFns, StringSliceAdditionalSpecFns};
use vstd::utf8::encode_utf8;
use json::JsonValue;
use reqwest::Url;
use crate::document::{text_member, text_members};
use crate::guard::{has_bounded_host, host_bounded};

verus! {

/// `reqwest::UrlError`, the reason `Url::parse` gives for refusing a text.
#[verifier::external_type_specification]
#[verifier::external_body]
pub struct ExUrlError(reqwest::UrlError);

/// What `Url::parse` makes of `text`: the serialization of the absolute URL it
/// reads, or `None` where it refuses the text.
pub uninterp spec fn parsed_url(text: Seq<char>) -> Option<Seq<char>>;

/// Assumed of `reqwest::Url::parse` and of `Url::into_string` on what it
/// returns: an absolute URL is read and handed out as its serialization, or
/// the text is refused, and the outcome depends on `text` alone. Which texts
/// are accepted is not stated.
///
/// The parser takes the host from behind the scheme's `:` and any slashes,
/// up to the next `/`, `\`, `?` or `#`, undoes its percent escapes, maps its
/// characters (one byte of the text gives at most six), and encodes each
/// label that goes beyond ASCII with a `u32` counter. A label of 3855
/// characters can drive that counter past its largest value, which can end
/// in a panic; a host part of at most 640 bytes gives none so long.
#[verifier::external_body]
pub(crate) fn parse_url(text: &str) -> (parsed: Result<String, reqwest::UrlError>)
    requires
        host_bounded(text.spec_bytes()),
    ensures
        match parsed {
            Ok(url) => parsed_url(text@) == Some(url@),
            Err(_) => parsed_url(text@) is None,
        },
{
    Url::parse(text).map(Url::into_string)
}

/// Why a document gave no address to follow.
#[derive(Clone, Copy, Debug, PartialEq, Eq, Structural)]
pub enum LinkError {
    /// The document holds no text under the key.
    Missing,
    /// The text under the key is not an absolute URL, or its host part is
    /// longer than `MAX_HOST_LEN`.
    Malformed,
}

/// The address that a field stands for: what its text parses to. Path and
/// query may be of any length; a host part of more than `MAX_HOST_LEN` bytes
/// is no address.
pub open spec fn link_target(field: Option<Seq<char>>) -> Result<Seq<char>, LinkError> {
    match field {
        None => Err(LinkError::Missing),
        Some(text) => if !host_bounded(encode_utf8(text)) {
            Err(LinkError::Malformed)
        } else {
            match parsed_url(text) {
                Some(url) => Ok(url),
                None => Err(LinkError::Malformed),
            }
        },
    }
}

/// The text a document holds under `key`, if any.
pub open spec fn field_of(members: Map<Seq<char>, Seq<char>>, key: Seq<char>) -> Option<Seq<char>> {
    if members.dom().contains(key) {
        Some(members[key])
    } else {
        None
    }
}

/// A link as contracts see it.
pub open spec fn link_view(link: Result<String, LinkError>) -> Result<Seq<char>, LinkError> {
    match link {
        Ok(url) => Ok(url@),
        Err(e) => Err(e),
    }
}

/// Where the fundamentals of `symbol` are asked for, before any check of the
/// address.
pub open spec fn fundamentals_address(symbol: Seq<char>) -> Seq<char> {
    "https://api.robinhood.com/fundamentals/"@ + symbol + "/"@
}

/// Builds the address text for the fundamentals of `symbol`.
pub fn fundamentals_url(symbol: &str) -> (url: String)
    ensures
        url@ == fundamentals_address(symbol@),
{
    let mut url = String::from_str("https://api.robinhood.com/fundamentals/");
    url.append(symbol);
    url.append("/");
    url
}

/// Turns the outcome of reading an address into a link: a refusal of any kind
/// is a malformed link.
pub fn checked_link(parsed: Result<String, reqwest::UrlError>) -> (link: Result<String, LinkError>)
    ensures
        match parsed {
            Ok(url) => link == Ok::<String, LinkError>(url),
            Err(_) => link == Err::<String, LinkError>(LinkError::Malformed),
        },
{
    match parsed {
        Ok(url) => Ok(url),
        Err(_) => Err(LinkError::Malformed),
    }
}

/// Resolves the text of a field to the address it names. An absent field is
/// `Missing`; a text that is no absolute URL is `Malformed`.
pub fn resolve_link(field: Option<String>) -> (link: Result<String, LinkError>)
    ensures
        link_view(link) == link_target(
            match field {
                Some(text) => Some(text@),
                None => None,
            },
        ),
{
    match field {
        None => Err(LinkError::Missing),
        Some(text) => if has_bounded_host(text.as_str()) {
            checked_link(parse_url(text.as_str()))
        } else {
            Err(LinkError::Malformed)
        },
    }
}

/// The address that `doc` holds under `key`.
pub fn member_link(doc: &JsonValue, key: &str) -> (link: Result<String, LinkError>)
    ensures
        link_view(link) == link_target(field_of(text_members(*doc), key@)),
{
    resolve_link(text_member(doc, key))
}

} // verus!
