//! Why a request of the guest was refused.

use vstd::prelude::*;

verus! {

/// Where and how a byte sequence stops being UTF-8.
#[derive(Clone, Copy, Debug, PartialEq, Eq)]
pub struct Utf8Fault {
    /// Length of the longest prefix that is valid UTF-8.
    pub valid_up_to: usize,
    /// Length of the offending sequence that starts there, or `None` when the
    /// input ends in the middle of a character.
    pub error_len: Option<usize>,
}

/// A failure that the host recovers from: the guest gets a negative status and
/// goes on running.
#[derive(Clone, Copy, Debug, PartialEq, Eq)]
pub enum BridgeError {
    /// The requested range does not lie inside the guest's memory.
    OutOfBounds,
    /// The requested bytes are not UTF-8.
    InvalidEncoding(Utf8Fault),
}

} // verus!
