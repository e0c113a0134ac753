//! Turning bytes copied out of guest memory into text.

use vstd::prelude::*;
use vstd::utf8::{decode_utf8, encode_utf8, encode_utf8_decode_utf8, valid_utf8};
use crate::fault::Utf8Fault;

verus! {

/// True when the first `n` bytes of `bytes` are valid UTF-8 and no longer prefix is.
pub open spec fn is_longest_valid_prefix(bytes: Seq<u8>, n: int) -> bool {
    &&& 0 <= n <= bytes.len()
    &&& valid_utf8(bytes.subrange(0, n))
    &&& forall|m: int| n < m <= bytes.len() ==> !valid_utf8(#[trigger] bytes.subrange(0, m))
}

/// Length of the longest prefix of `bytes` that is valid UTF-8.
pub open spec fn valid_prefix_len(bytes: Seq<u8>) -> int {
    choose|n: int| is_longest_valid_prefix(bytes, n)
}

/// What `Utf8Error::error_len` reports for `bytes` when they are not UTF-8.
pub uninterp spec fn utf8_error_len(bytes: Seq<u8>) -> Option<usize>;

/// True when the offending bytes that `fault` speaks of lie inside `bytes`: a
/// sequence of at least one byte that starts where the valid prefix ends, or,
/// where the input ends inside a character, the one to three bytes that are left.
pub open spec fn fault_lies_within(bytes: Seq<u8>, fault: Utf8Fault) -> bool {
    match fault.error_len {
        Some(len) => 1 <= len && fault.valid_up_to + len <= bytes.len(),
        None => 1 <= bytes.len() - fault.valid_up_to <= 3,
    }
}

/// The fault that decoding reports for `bytes` that are not UTF-8.
pub open spec fn fault_of(bytes: Seq<u8>) -> Utf8Fault {
    Utf8Fault { valid_up_to: valid_prefix_len(bytes) as usize, error_len: utf8_error_len(bytes) }
}

/// Some prefix no longer than `k` is the longest valid one, given that none
/// longer than `k` is valid.
proof fn lemma_longest_valid_prefix_below(bytes: Seq<u8>, k: int)
    requires
        0 <= k <= bytes.len(),
        forall|m: int| k < m <= bytes.len() ==> !valid_utf8(#[trigger] bytes.subrange(0, m)),
    ensures
        exists|n: int| is_longest_valid_prefix(bytes, n),
    decreases k,
{
    if valid_utf8(bytes.subrange(0, k)) {
        assert(is_longest_valid_prefix(bytes, k));
    } else {
        assert(k > 0) by {
            assert(bytes.subrange(0, 0).len() == 0);
        }
        lemma_longest_valid_prefix_below(bytes, k - 1);
    }
}

/// Every byte sequence has a longest valid prefix, and [`valid_prefix_len`] is
/// its length.
pub proof fn lemma_valid_prefix_len(bytes: Seq<u8>)
    ensures
        is_longest_valid_prefix(bytes, valid_prefix_len(bytes)),
{
    lemma_longest_valid_prefix_below(bytes, bytes.len() as int);
}

/// At most one length is that of the longest valid prefix.
pub proof fn lemma_longest_valid_prefix_unique(bytes: Seq<u8>, n: int, m: int)
    requires
        is_longest_valid_prefix(bytes, n),
        is_longest_valid_prefix(bytes, m),
    ensures
        n == m,
{
    if n < m {
        assert(!valid_utf8(bytes.subrange(0, m)));
    } else if m < n {
        assert(!valid_utf8(bytes.subrange(0, n)));
    }
}

/// The longest valid prefix of a byte sequence is the whole of it exactly when
/// the sequence is valid UTF-8.
pub proof fn lemma_longest_valid_prefix_whole(bytes: Seq<u8>, n: int)
    requires
        is_longest_valid_prefix(bytes, n),
    ensures
        n == bytes.len() <==> valid_utf8(bytes),
{
    assert(bytes.subrange(0, bytes.len() as int) == bytes);
    if n < bytes.len() {
        assert(!valid_utf8(bytes.subrange(0, bytes.len() as int)));
    }
}

/// Calls `String::from_utf8`.
///
/// Trusted: the call succeeds exactly on valid UTF-8, and the string it returns
/// is made of the very bytes it was given. On failure the fault carries the two
/// numbers of the error's `utf8_error()`. Its `valid_up_to()` is the greatest
/// index up to which the input is valid. Its `error_len()` is `None` where the
/// input ends one to three bytes after that index, in the middle of a character,
/// and otherwise the length of the invalid sequence that starts at that index.
#[verifier::external_body]
fn string_from_utf8(bytes: Vec<u8>) -> (r: Result<String, Utf8Fault>)
    ensures
        r is Ok <==> valid_utf8(bytes@),
        r matches Ok(text) ==> encode_utf8(text@) == bytes@,
        r matches Err(fault) ==> is_longest_valid_prefix(bytes@, fault.valid_up_to as int)
            && fault.error_len == utf8_error_len(bytes@)
            && fault_lies_within(bytes@, fault),
{
    match String::from_utf8(bytes) {
        Ok(text) => Ok(text),
        Err(e) => {
            let cause = e.utf8_error();
            Err(Utf8Fault { valid_up_to: cause.valid_up_to(), error_len: cause.error_len() })
        },
    }
}

/// Decodes `bytes` as UTF-8.
///
/// Valid input gives the text it encodes; anything else gives the place where
/// decoding stopped.
pub fn decode(bytes: Vec<u8>) -> (r: Result<String, Utf8Fault>)
    ensures
        r is Ok <==> valid_utf8(bytes@),
        r matches Ok(text) ==> text@ == decode_utf8(bytes@) && encode_utf8(text@) == bytes@,
        r matches Err(fault) ==> fault == fault_of(bytes@) && fault_lies_within(bytes@, fault),
{
    let ghost given = bytes@;
    let r = string_from_utf8(bytes);
    proof {
        match &r {
            Ok(text) => {
                encode_utf8_decode_utf8(text@);
            },
            Err(fault) => {
                lemma_longest_valid_prefix_whole(given, fault.valid_up_to as int);
                lemma_valid_prefix_len(given);
                lemma_longest_valid_prefix_unique(
                    given,
                    fault.valid_up_to as int,
                    valid_prefix_len(given),
                );
            },
        }
    }
    r
}

} // verus!
