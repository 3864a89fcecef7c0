//! What is kept away from the two parsers of other crates: texts on which
//! their arithmetic can leave its range. Each test is a scan of the bytes.

use vstd::prelude::*;
use vstd::string::StringSliceAdditionalSpecFns;

verus! {

/// The most digits in a row that a text may hold and still be handed to the
/// JSON parser.
pub const MAX_DIGIT_RUN: usize = 32767;

/// The most bytes that the host part of a text may take and still be handed
/// to the URL parser.
pub const MAX_HOST_LEN: usize = 640;

/// An ASCII digit.
pub open spec fn is_digit_byte(b: u8) -> bool {
    0x30 <= b <= 0x39
}

/// From `start` on, `count` bytes are digits.
pub open spec fn digit_run_at(bytes: Seq<u8>, start: int, count: int) -> bool {
    &&& 0 <= start
    &&& start + count <= bytes.len()
    &&& forall|k: int| start <= k < start + count ==> is_digit_byte(#[trigger] bytes[k])
}

/// From `start` on, more than `MAX_DIGIT_RUN` bytes are digits.
pub open spec fn long_run_at(bytes: Seq<u8>, start: int) -> bool {
    digit_run_at(bytes, start, MAX_DIGIT_RUN + 1)
}

/// Nowhere stand more than `MAX_DIGIT_RUN` digits in a row.
pub open spec fn digits_bounded(bytes: Seq<u8>) -> bool {
    forall|start: int| !long_run_at(bytes, start)
}

/// `/` or `\`, or one of the tab, line feed and carriage return that the URL
/// parser passes over wherever they stand.
pub open spec fn is_slash_or_skipped(b: u8) -> bool {
    b == 0x2f || b == 0x5c || b == 0x09 || b == 0x0a || b == 0x0d
}

/// One of `/`, `\`, `?` and `#`, which end the host part.
pub open spec fn ends_host(b: u8) -> bool {
    b == 0x2f || b == 0x5c || b == 0x3f || b == 0x23
}

/// The place of the first `:` at or after `from`, or the end.
pub open spec fn colon_from(bytes: Seq<u8>, from: int) -> int
    decreases bytes.len() - from,
{
    if from < 0 || from >= bytes.len() {
        bytes.len() as int
    } else if bytes[from] == 0x3a {
        from
    } else {
        colon_from(bytes, from + 1)
    }
}

/// The first place at or after `from` that holds neither a slash nor a byte
/// that is passed over, or the end.
pub open spec fn slashes_end_from(bytes: Seq<u8>, from: int) -> int
    decreases bytes.len() - from,
{
    if from < 0 || from >= bytes.len() {
        bytes.len() as int
    } else if !is_slash_or_skipped(bytes[from]) {
        from
    } else {
        slashes_end_from(bytes, from + 1)
    }
}

/// The first place at or after `from` that ends a host part, or the end.
pub open spec fn host_end_from(bytes: Seq<u8>, from: int) -> int
    decreases bytes.len() - from,
{
    if from < 0 || from >= bytes.len() {
        bytes.len() as int
    } else if ends_host(bytes[from]) {
        from
    } else {
        host_end_from(bytes, from + 1)
    }
}

/// Where the host part begins: behind the first `:` and the slashes that
/// follow it.
pub open spec fn host_start(bytes: Seq<u8>) -> int {
    slashes_end_from(bytes, colon_from(bytes, 0) + 1)
}

/// How many bytes the host part takes: from its start to the next `/`, `\`,
/// `?` or `#`, or to the end. Name, password and port count as part of it. A
/// text without `:` has none.
pub open spec fn host_len(bytes: Seq<u8>) -> int {
    host_end_from(bytes, host_start(bytes)) - host_start(bytes)
}

/// The host part takes no more than `MAX_HOST_LEN` bytes.
pub open spec fn host_bounded(bytes: Seq<u8>) -> bool {
    host_len(bytes) <= MAX_HOST_LEN
}

/// Tells whether a text holds no more than `MAX_DIGIT_RUN` digits in a row.
pub fn has_bounded_digits(text: &str) -> (bounded: bool)
    ensures
        bounded == digits_bounded(text.spec_bytes()),
{
    let bytes = text.as_bytes();
    let n: usize = bytes.len();
    let mut i: usize = 0;
    // The digits that stand right before `i`.
    let mut run: usize = 0;
    while i < n
        invariant
            n == bytes@.len(),
            bytes@ == text.spec_bytes(),
            i <= n,
            run <= i,
            run <= MAX_DIGIT_RUN,
            digit_run_at(bytes@, i - run, run as int),
            run < i ==> !is_digit_byte(bytes@[i - run - 1]),
            forall|start: int| start + MAX_DIGIT_RUN + 1 <= i ==> !long_run_at(bytes@, start),
        decreases n - i,
    {
        let b: u8 = bytes[i];
        if 0x30 <= b && b <= 0x39 {
            if run == MAX_DIGIT_RUN {
                assert(long_run_at(bytes@, i - run));
                return false;
            }
            run = run + 1;
        } else {
            run = 0;
        }
        i = i + 1;
        assert forall|start: int| start + MAX_DIGIT_RUN + 1 <= i implies !long_run_at(
            bytes@,
            start,
        ) by {
            if start + MAX_DIGIT_RUN + 1 == i && start >= 0 {
                // A run that ends here would hold the byte before the digits
                // counted, or the byte just read, and neither is a digit.
                if run < i {
                    assert(!is_digit_byte(bytes@[i - run - 1]));
                }
            }
        }
    }
    true
}

/// Tells whether the host part of a text takes no more than `MAX_HOST_LEN`
/// bytes.
pub fn has_bounded_host(text: &str) -> (bounded: bool)
    ensures
        bounded == host_bounded(text.spec_bytes()),
{
    let bytes = text.as_bytes();
    let n: usize = bytes.len();
    let mut colon: usize = 0;
    while colon < n && bytes[colon] != 0x3a
        invariant
            n == bytes@.len(),
            bytes@ == text.spec_bytes(),
            colon <= n,
            colon_from(bytes@, colon as int) == colon_from(bytes@, 0),
        decreases n - colon,
    {
        colon = colon + 1;
    }
    if colon == n {
        return true;
    }
    let mut start: usize = colon + 1;
    while start < n && (bytes[start] == 0x2f || bytes[start] == 0x5c || bytes[start] == 0x09
        || bytes[start] == 0x0a || bytes[start] == 0x0d)
        invariant
            n == bytes@.len(),
            bytes@ == text.spec_bytes(),
            colon < start <= n,
            slashes_end_from(bytes@, start as int) == host_start(bytes@),
        decreases n - start,
    {
        start = start + 1;
    }
    let mut end: usize = start;
    while end < n && !(bytes[end] == 0x2f || bytes[end] == 0x5c || bytes[end] == 0x3f
        || bytes[end] == 0x23)
        invariant
            n == bytes@.len(),
            bytes@ == text.spec_bytes(),
            start <= end <= n,
            start == host_start(bytes@),
            host_end_from(bytes@, end as int) == host_end_from(bytes@, start as int),
            end - start <= MAX_HOST_LEN + 1,
        decreases n - end,
    {
        if end - start > MAX_HOST_LEN {
            // The host part reaches at least to here.
            proof {
                lemma_host_end_reaches(bytes@, end as int);
            }
            return false;
        }
        end = end + 1;
    }
    end - start <= MAX_HOST_LEN
}

/// A host part ends no earlier than where the search for its end stands.
proof fn lemma_host_end_reaches(bytes: Seq<u8>, from: int)
    requires
        0 <= from <= bytes.len(),
    ensures
        from <= host_end_from(bytes, from),
    decreases bytes.len() - from,
{
    if from < bytes.len() && !ends_host(bytes[from]) {
        lemma_host_end_reaches(bytes, from + 1);
    }
}

} // verus!
