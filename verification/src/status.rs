//! The single integer that a host function hands back to the guest.
//!
//! A guest sees a 32-bit signed value. A request that was served is answered with
//! the number of bytes that were consumed, a request that was refused with
//! [`FAILURE`].

use vstd::prelude::*;

verus! {

/// The status of every refused request.
pub const FAILURE: i32 = -1;

/// The status that reports `n` consumed bytes: the low 32 bits of `n`, read as a
/// signed number. For `n` up to `i32::MAX` that is `n` itself.
pub open spec fn length_status(n: nat) -> int {
    let low = n % 0x1_0000_0000;
    if low <= 0x7fff_ffff {
        low as int
    } else {
        low - 0x1_0000_0000
    }
}

/// The status that reports `n` consumed bytes.
pub fn status_of_length(n: usize) -> (status: i32)
    ensures
        status == length_status(n as nat),
{
    let low: u64 = (n as u64) % 0x1_0000_0000u64;
    if low <= 0x7fff_ffffu64 {
        low as i32
    } else {
        (low as i64 - 0x1_0000_0000i64) as i32
    }
}

/// Tells whether `status` reports that all of `length` bytes were consumed.
///
/// This is the test a guest makes on what a host function returned.
pub fn accepted_in_full(status: i32, length: usize) -> (r: bool)
    ensures
        r == (status == length_status(length as nat)),
{
    status == status_of_length(length)
}

} // verus!
