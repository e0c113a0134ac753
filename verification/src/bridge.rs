//! Serving a guest's request to print a string that lies in its memory.
//!
//! The request is an offset and a length. It is served in a fixed order: the pair
//! is validated against the extent of the memory, then the bytes are copied out,
//! then the copy is decoded. Nothing is read before the pair is known to lie
//! inside the memory, and nothing of the guest's memory is kept once the copy is
//! made.

use vstd::prelude::*;
use vstd::utf8::{decode_utf8, encode_utf8, valid_utf8};
use crate::fault::{BridgeError, Utf8Fault};
use crate::range::{within_extent, GuestRange};
use crate::status::{length_status, status_of_length, FAILURE};
use crate::text::{
    decode, fault_lies_within, fault_of, is_longest_valid_prefix,
    lemma_longest_valid_prefix_whole, lemma_valid_prefix_len, valid_prefix_len,
};

verus! {

/// What the host has to do once a request has been looked at.
#[derive(Debug, PartialEq, Eq)]
pub enum Outcome {
    /// The request was served: `text` goes to the sink, and the guest is told
    /// that `consumed` bytes were taken.
    Accepted { text: String, consumed: usize },
    /// The request was refused: `error` goes to the diagnostic channel, and the
    /// guest is told that the call failed.
    Refused { error: BridgeError },
}

/// An [`Outcome`] as a mathematical value.
pub ghost enum OutcomeView {
    Accepted { text: Seq<char>, consumed: nat },
    Refused { error: BridgeError },
}

impl View for Outcome {
    type V = OutcomeView;

    open spec fn view(&self) -> OutcomeView {
        match *self {
            Outcome::Accepted { text, consumed } => OutcomeView::Accepted {
                text: text@,
                consumed: consumed as nat,
            },
            Outcome::Refused { error } => OutcomeView::Refused { error },
        }
    }
}

impl OutcomeView {
    /// The status that the guest receives.
    pub open spec fn status(self) -> int {
        match self {
            OutcomeView::Accepted { consumed, .. } => length_status(consumed),
            OutcomeView::Refused { .. } => FAILURE as int,
        }
    }

    /// The text that the sink receives, if any.
    pub open spec fn sink(self) -> Option<Seq<char>> {
        match self {
            OutcomeView::Accepted { text, .. } => Some(text),
            OutcomeView::Refused { .. } => None,
        }
    }

    /// The error that the diagnostic channel receives, if any.
    pub open spec fn diagnostic(self) -> Option<BridgeError> {
        match self {
            OutcomeView::Accepted { .. } => None,
            OutcomeView::Refused { error } => Some(error),
        }
    }
}

/// The outcome of decoding `consumed` bytes, given what the decoder made of them.
pub open spec fn outcome_of_decoding(
    consumed: nat,
    decoded: Result<Seq<char>, Utf8Fault>,
) -> OutcomeView {
    match decoded {
        Ok(text) => OutcomeView::Accepted { text, consumed },
        Err(fault) => OutcomeView::Refused { error: BridgeError::InvalidEncoding(fault) },
    }
}

/// The outcome for bytes that were copied out of guest memory.
pub open spec fn outcome_of_bytes(bytes: Seq<u8>) -> OutcomeView {
    if valid_utf8(bytes) {
        OutcomeView::Accepted { text: decode_utf8(bytes), consumed: bytes.len() }
    } else {
        OutcomeView::Refused { error: BridgeError::InvalidEncoding(fault_of(bytes)) }
    }
}

/// The bytes that a request asks for.
pub open spec fn requested_bytes(memory: Seq<u8>, offset: u32, length: u32) -> Seq<u8> {
    memory.subrange(offset as int, offset + length)
}

/// The outcome of a request for `length` bytes at `offset` of `memory`.
pub open spec fn outcome_of_request(memory: Seq<u8>, offset: u32, length: u32) -> OutcomeView {
    if within_extent(offset, length, memory.len()) {
        outcome_of_bytes(requested_bytes(memory, offset, length))
    } else {
        OutcomeView::Refused { error: BridgeError::OutOfBounds }
    }
}

impl Outcome {
    /// The outcome of decoding `consumed` bytes, given what the decoder returned.
    pub fn settle(consumed: usize, decoded: Result<String, Utf8Fault>) -> (outcome: Outcome)
        ensures
            outcome@ == outcome_of_decoding(
                consumed as nat,
                match decoded {
                    Ok(text) => Ok(text@),
                    Err(fault) => Err(fault),
                },
            ),
    {
        match decoded {
            Ok(text) => Outcome::Accepted { text, consumed },
            Err(fault) => Outcome::Refused { error: BridgeError::InvalidEncoding(fault) },
        }
    }

    /// The status to hand back to the guest: the number of bytes consumed, or
    /// [`FAILURE`].
    pub fn status(&self) -> (status: i32)
        ensures
            status == self@.status(),
    {
        match self {
            Outcome::Accepted { consumed, .. } => status_of_length(*consumed),
            Outcome::Refused { .. } => FAILURE,
        }
    }

    /// The text to forward to the sink, if the request was served.
    pub fn text(&self) -> (text: Option<&str>)
        ensures
            match text {
                Some(t) => self@.sink() == Some(t@),
                None => self@.sink() is None,
            },
    {
        match self {
            Outcome::Accepted { text, .. } => Some(text.as_str()),
            Outcome::Refused { .. } => None,
        }
    }

    /// The error to report, if the request was refused.
    pub fn error(&self) -> (error: Option<BridgeError>)
        ensures
            error == self@.diagnostic(),
    {
        match self {
            Outcome::Accepted { .. } => None,
            Outcome::Refused { error } => Some(*error),
        }
    }
}

/// Decodes bytes that were copied out of guest memory and says what to do with
/// them.
pub fn deliver(bytes: Vec<u8>) -> (outcome: Outcome)
    ensures
        outcome@ == outcome_of_bytes(bytes@),
        outcome matches Outcome::Accepted { text, .. } ==> encode_utf8(text@) == bytes@,
        outcome matches Outcome::Refused { error: BridgeError::InvalidEncoding(fault) }
            ==> fault_lies_within(bytes@, fault),
{
    let consumed = bytes.len();
    Outcome::settle(consumed, decode(bytes))
}

/// Serves a request for `length` bytes of text at `offset` of `memory`.
///
/// The range is validated first; a range that does not lie inside `memory`, or
/// whose end does not fit in a `u32`, is refused without a byte being read. The
/// bytes are then copied and decoded as UTF-8.
pub fn read_utf8_string(memory: &[u8], offset: u32, length: u32) -> (outcome: Outcome)
    ensures
        outcome@ == outcome_of_request(memory@, offset, length),
        outcome matches Outcome::Accepted { text, .. } ==> encode_utf8(text@) == requested_bytes(
            memory@,
            offset,
            length,
        ),
        outcome matches Outcome::Refused { error: BridgeError::InvalidEncoding(fault) }
            ==> fault_lies_within(requested_bytes(memory@, offset, length), fault),
{
    let range = match GuestRange::locate(offset, length, memory.len()) {
        Ok(range) => range,
        Err(error) => {
            return Outcome::Refused { error };
        },
    };
    match range.copy_out(memory) {
        Ok(bytes) => deliver(bytes),
        Err(error) => Outcome::Refused { error },
    }
}

/// Copies `length` bytes at `offset` out of a memory that is reached through
/// `copy`.
///
/// `extent` is the current size of the memory in bytes; `copy` is handed the start
/// and the end of a range and returns the bytes between them. The range is
/// validated first, and `copy` is called only with a range that lies inside the
/// extent, so it has to accept no other. A refused request never reaches it.
pub fn read_bytes_with<F: FnOnce(usize, usize) -> Vec<u8>>(
    extent: usize,
    offset: u32,
    length: u32,
    copy: F,
) -> (r: Result<Vec<u8>, BridgeError>)
    requires
        within_extent(offset, length, extent as nat) ==> call_requires(
            copy,
            (offset as usize, (offset + length) as usize),
        ),
    ensures
        r is Ok <==> within_extent(offset, length, extent as nat),
        r matches Ok(bytes) ==> call_ensures(
            copy,
            (offset as usize, (offset + length) as usize),
            bytes,
        ),
        r matches Err(e) ==> e == BridgeError::OutOfBounds,
{
    match GuestRange::locate(offset, length, extent) {
        Ok(range) => Ok(copy(range.start(), range.end())),
        Err(error) => Err(error),
    }
}

/// Serves a request for `length` bytes of text at `offset` of a memory that is
/// reached through `copy`.
///
/// The bytes are fetched as [`read_bytes_with`] fetches them, and then decoded as
/// UTF-8.
pub fn read_utf8_string_with<F: FnOnce(usize, usize) -> Vec<u8>>(
    extent: usize,
    offset: u32,
    length: u32,
    copy: F,
) -> (outcome: Outcome)
    requires
        within_extent(offset, length, extent as nat) ==> call_requires(
            copy,
            (offset as usize, (offset + length) as usize),
        ),
    ensures
        !within_extent(offset, length, extent as nat) ==> outcome@ == (OutcomeView::Refused {
            error: BridgeError::OutOfBounds,
        }),
        within_extent(offset, length, extent as nat) ==> exists|bytes: Vec<u8>|
            {
                &&& #[trigger] call_ensures(
                    copy,
                    (offset as usize, (offset + length) as usize),
                    bytes,
                )
                &&& outcome@ == outcome_of_bytes(bytes@)
                &&& outcome matches Outcome::Accepted { text, .. } ==> encode_utf8(text@) == bytes@
                &&& outcome matches Outcome::Refused { error: BridgeError::InvalidEncoding(fault) }
                    ==> fault_lies_within(bytes@, fault)
            },
{
    match read_bytes_with(extent, offset, length, copy) {
        Ok(bytes) => {
            let ghost copied = bytes;
            let outcome = deliver(bytes);
            assert(call_ensures(copy, (offset as usize, (offset + length) as usize), copied));
            outcome
        },
        Err(error) => Outcome::Refused { error },
    }
}

/// A request for valid UTF-8 that lies inside the memory is accepted: the sink
/// receives the text that the requested bytes encode, which encodes back to those
/// bytes, and the status is the requested length.
pub proof fn lemma_valid_text_is_accepted(memory: Seq<u8>, offset: u32, length: u32)
    requires
        offset + length <= memory.len(),
        offset + length <= u32::MAX,
        valid_utf8(requested_bytes(memory, offset, length)),
    ensures
        ({
            let bytes = requested_bytes(memory, offset, length);
            let outcome = outcome_of_request(memory, offset, length);
            &&& outcome == OutcomeView::Accepted { text: decode_utf8(bytes), consumed: length as nat }
            &&& outcome.sink() == Some(decode_utf8(bytes))
            &&& encode_utf8(decode_utf8(bytes)) == bytes
            &&& outcome.diagnostic() is None
            &&& outcome.status() == length_status(length as nat)
            &&& length <= i32::MAX ==> outcome.status() == length
        }),
{
    vstd::utf8::decode_utf8_encode_utf8(requested_bytes(memory, offset, length));
}

/// A request that reaches beyond the memory is refused: the status is negative
/// and the sink receives nothing.
pub proof fn lemma_beyond_extent_is_refused(memory: Seq<u8>, offset: u32, length: u32)
    requires
        offset + length > memory.len(),
    ensures
        ({
            let outcome = outcome_of_request(memory, offset, length);
            &&& outcome == OutcomeView::Refused { error: BridgeError::OutOfBounds }
            &&& outcome.status() < 0
            &&& outcome.sink() is None
        }),
{
}

/// A request for no bytes at an offset inside the memory, or at its very end, is
/// accepted with the empty text and status 0.
pub proof fn lemma_empty_request_is_accepted(memory: Seq<u8>, offset: u32)
    requires
        offset <= memory.len(),
    ensures
        ({
            let outcome = outcome_of_request(memory, offset, 0);
            &&& outcome == OutcomeView::Accepted { text: Seq::<char>::empty(), consumed: 0 }
            &&& outcome.sink() == Some(Seq::<char>::empty())
            &&& outcome.status() == 0
        }),
{
    let bytes = requested_bytes(memory, offset, 0);
    assert(bytes.len() == 0);
    assert(valid_utf8(bytes));
    assert(decode_utf8(bytes) == Seq::<char>::empty());
}

/// A request whose end does not fit in a `u32` is refused, whatever the memory
/// holds and however large it is: the sum is never wrapped.
pub proof fn lemma_overflow_is_refused(memory: Seq<u8>, offset: u32, length: u32)
    requires
        offset + length > u32::MAX,
    ensures
        ({
            let outcome = outcome_of_request(memory, offset, length);
            &&& outcome == OutcomeView::Refused { error: BridgeError::OutOfBounds }
            &&& outcome.status() < 0
            &&& outcome.sink() is None
        }),
{
}

/// A request for bytes that lie inside the memory but are not UTF-8 is refused:
/// the status is negative, the sink receives nothing, and the diagnostic channel
/// receives the place where decoding stopped.
pub proof fn lemma_invalid_text_is_refused(memory: Seq<u8>, offset: u32, length: u32)
    requires
        within_extent(offset, length, memory.len()),
        !valid_utf8(requested_bytes(memory, offset, length)),
    ensures
        ({
            let bytes = requested_bytes(memory, offset, length);
            let outcome = outcome_of_request(memory, offset, length);
            &&& outcome == OutcomeView::Refused {
                error: BridgeError::InvalidEncoding(fault_of(bytes)),
            }
            &&& outcome.status() < 0
            &&& outcome.sink() is None
            &&& outcome.diagnostic() == Some(BridgeError::InvalidEncoding(fault_of(bytes)))
            &&& is_longest_valid_prefix(bytes, valid_prefix_len(bytes))
            &&& valid_prefix_len(bytes) < length
        }),
{
    let bytes = requested_bytes(memory, offset, length);
    lemma_valid_prefix_len(bytes);
    lemma_longest_valid_prefix_whole(bytes, valid_prefix_len(bytes));
}

/// The status tells the two kinds of outcome apart whenever fewer than 2^31
/// bytes were consumed: it is negative exactly when the request was refused.
pub proof fn lemma_status_sign(outcome: OutcomeView)
    requires
        outcome matches OutcomeView::Accepted { consumed, .. } ==> consumed <= i32::MAX,
    ensures
        outcome.status() < 0 <==> outcome is Refused,
{
}

/// A guest that asked for fewer than 2^31 bytes learns from the status alone
/// whether all of them were taken: the status reports the requested length
/// exactly when the request was served.
pub proof fn lemma_status_confirms_service(memory: Seq<u8>, offset: u32, length: u32)
    requires
        length <= i32::MAX,
    ensures
        outcome_of_request(memory, offset, length).status() == length_status(length as nat)
            <==> outcome_of_request(memory, offset, length) is Accepted,
{
}

} // verus!
