//! What the channel takes: a message of bounded length, measured in bytes of
//! UTF-8. A message that is too long is cut, unless it holds a code fence.

use vstd::prelude::*;
use vstd::string::StringSliceAdditionalSpecFns;
use vstd::utf8::{
    decode_utf8, decode_utf8_split, encode_utf8, encode_utf8_decode_utf8, encode_utf8_valid_utf8,
    is_ascii_chars, is_ascii_chars_encode_utf8, is_char_boundary,
    is_char_boundary_iff_not_is_continuation_byte, is_char_boundary_start_end_of_seq,
    is_continuation_byte, length_of_first_scalar, pop_first_scalar, valid_utf8,
};

verus! {

/// The longest message that Discord takes.
pub const DISCORD_MAX_MSG_CHAR_LEN: usize = 2000;

/// What was done to a message to make it fit.
#[derive(Clone, Copy, Debug, PartialEq, Eq, Structural)]
pub enum Fit {
    /// It was short enough, and is sent as it is.
    Whole,
    /// It was too long, and its end was cut off.
    Shortened,
    /// It is too long but holds a code fence: it goes out as it is, and the
    /// channel is expected to refuse it.
    Unshortenable,
}

/// Three backticks start at byte `i`.
pub open spec fn fence_at(bytes: Seq<u8>, i: int) -> bool {
    &&& 0 <= i
    &&& i + 3 <= bytes.len()
    &&& bytes[i] == 0x60
    &&& bytes[i + 1] == 0x60
    &&& bytes[i + 2] == 0x60
}

/// The message holds a code fence, three backticks in a row.
pub open spec fn has_fence(bytes: Seq<u8>) -> bool {
    exists|i: int| fence_at(bytes, i)
}

/// The last place at or before `limit` where the text can be cut between two
/// characters.
pub open spec fn cut_point(bytes: Seq<u8>, limit: int) -> int
    decreases limit,
{
    if limit <= 0 {
        0
    } else if is_char_boundary(bytes, limit) {
        limit
    } else {
        cut_point(bytes, limit - 1)
    }
}

/// How a message fares against a limit.
pub open spec fn fit_of(bytes: Seq<u8>, limit: int) -> Fit {
    if bytes.len() <= limit {
        Fit::Whole
    } else if has_fence(bytes) {
        Fit::Unshortenable
    } else {
        Fit::Shortened
    }
}

/// How many bytes of a message go out.
pub open spec fn kept_len(bytes: Seq<u8>, limit: int) -> int {
    if fit_of(bytes, limit) == Fit::Shortened {
        cut_point(bytes, limit)
    } else {
        bytes.len() as int
    }
}

/// A cut point is a character boundary within the limit, and the limit itself
/// where that is one.
pub proof fn lemma_cut_point(bytes: Seq<u8>, limit: int)
    requires
        valid_utf8(bytes),
        0 <= limit,
    ensures
        0 <= cut_point(bytes, limit) <= limit,
        is_char_boundary(bytes, cut_point(bytes, limit)),
        is_char_boundary(bytes, limit) ==> cut_point(bytes, limit) == limit,
    decreases limit,
{
    if limit > 0 && !is_char_boundary(bytes, limit) {
        lemma_cut_point(bytes, limit - 1);
    }
}

/// No character boundary lies between a cut point and its limit.
pub proof fn lemma_cut_point_is_last(bytes: Seq<u8>, limit: int, boundary: int)
    requires
        0 <= boundary <= limit,
        is_char_boundary(bytes, boundary),
    ensures
        boundary <= cut_point(bytes, limit),
    decreases limit,
{
    if limit > 0 && !is_char_boundary(bytes, limit) {
        lemma_cut_point_is_last(bytes, limit - 1, boundary);
    }
}

/// A character takes at most four bytes, so a boundary lies at most three
/// bytes before any place in a text.
pub proof fn lemma_boundary_nearby(bytes: Seq<u8>, at: int)
    requires
        valid_utf8(bytes),
        0 <= at <= bytes.len(),
    ensures
        exists|boundary: int|
            0 <= boundary && at - 3 <= boundary <= at && is_char_boundary(bytes, boundary),
    decreases bytes.len(),
{
    if at <= 3 {
        assert(is_char_boundary(bytes, 0));
    } else {
        let first = length_of_first_scalar(bytes);
        let rest = pop_first_scalar(bytes);
        lemma_boundary_nearby(rest, at - first);
        let within = choose|boundary: int|
            0 <= boundary && at - first - 3 <= boundary <= at - first && is_char_boundary(
                rest,
                boundary,
            );
        assert(is_char_boundary(bytes, within + first));
    }
}

/// A cut takes off less than one character beyond the limit: at most three
/// bytes short of it.
pub proof fn lemma_cut_point_close(bytes: Seq<u8>, limit: int)
    requires
        valid_utf8(bytes),
        0 <= limit <= bytes.len(),
    ensures
        limit - 3 <= cut_point(bytes, limit) <= limit,
{
    lemma_cut_point(bytes, limit);
    lemma_boundary_nearby(bytes, limit);
    let boundary = choose|boundary: int|
        0 <= boundary && limit - 3 <= boundary <= limit && is_char_boundary(bytes, boundary);
    lemma_cut_point_is_last(bytes, limit, boundary);
}

/// A message of ASCII alone can be cut anywhere, so it is cut to the limit
/// exactly.
pub proof fn lemma_ascii_cut_is_exact(chars: Seq<char>, limit: int)
    requires
        is_ascii_chars(chars),
        0 <= limit <= chars.len(),
    ensures
        encode_utf8(chars).len() == chars.len(),
        cut_point(encode_utf8(chars), limit) == limit,
{
    let bytes = encode_utf8(chars);
    encode_utf8_valid_utf8(chars);
    is_ascii_chars_encode_utf8(chars);
    if limit < bytes.len() {
        is_char_boundary_iff_not_is_continuation_byte(bytes, limit);
    } else {
        is_char_boundary_start_end_of_seq(bytes);
    }
    lemma_cut_point(bytes, limit);
}

/// Tells whether a message holds a code fence.
pub fn contains_fence(msg: &str) -> (found: bool)
    ensures
        found == has_fence(msg.spec_bytes()),
{
    let bytes = msg.as_bytes();
    let n: usize = bytes.len();
    let mut i: usize = 0;
    while i < n && n - i >= 3
        invariant
            n == bytes@.len(),
            bytes@ == msg.spec_bytes(),
            i <= n,
            forall|k: int| 0 <= k < i ==> !fence_at(bytes@, k),
        decreases n - i,
    {
        if bytes[i] == 0x60 && bytes[i + 1] == 0x60 && bytes[i + 2] == 0x60 {
            assert(fence_at(bytes@, i as int));
            return true;
        }
        i = i + 1;
    }
    false
}

/// Makes a message fit `limit` bytes. One that is short enough goes out whole.
/// One that is longer and holds no code fence is cut at the last character
/// boundary within the limit, so to exactly `limit` bytes where a character
/// ends there. One that is longer and holds a code fence goes out uncut.
pub fn fit_message<'a>(msg: &'a str, limit: usize) -> (fitted: (&'a str, Fit))
    ensures
        fitted.1 == fit_of(msg.spec_bytes(), limit as int),
        fitted.0.spec_bytes() == msg.spec_bytes().subrange(
            0,
            kept_len(msg.spec_bytes(), limit as int),
        ),
        fitted.0@.is_prefix_of(msg@),
        fitted.1 != Fit::Shortened ==> fitted.0@ == msg@,
        fitted.1 == Fit::Shortened ==> limit - 3 <= fitted.0.spec_bytes().len() <= limit,
        fitted.1 == Fit::Shortened && is_char_boundary(msg.spec_bytes(), limit as int)
            ==> fitted.0.spec_bytes().len() == limit,
        fitted.1 == Fit::Unshortenable ==> fitted.0.spec_bytes().len() > limit,
{
    let ghost bytes = msg.spec_bytes();
    proof {
        encode_utf8_valid_utf8(msg@);
    }
    if msg.as_bytes().len() <= limit {
        return (msg, Fit::Whole);
    }
    if contains_fence(msg) {
        return (msg, Fit::Unshortenable);
    }
    // Step back from the limit to where a character ends; the start of the
    // message is such a place.
    let mut at: usize = limit;
    while !msg.is_char_boundary(at)
        invariant
            bytes == msg.spec_bytes(),
            valid_utf8(bytes),
            at <= limit,
            limit < bytes.len(),
            cut_point(bytes, at as int) == cut_point(bytes, limit as int),
        decreases at,
    {
        at = at - 1;
    }
    proof {
        lemma_cut_point(bytes, limit as int);
        lemma_cut_point_close(bytes, limit as int);
    }
    let (head, _) = msg.split_at(at);
    proof {
        // The characters of the message are those of the head, then those
        // of what was cut off.
        decode_utf8_split(bytes, at as int);
        encode_utf8_decode_utf8(msg@);
        encode_utf8_decode_utf8(head@);
    }
    (head, Fit::Shortened)
}

} // verus!
