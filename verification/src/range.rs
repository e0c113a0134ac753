//! Validating a guest-supplied offset and length against the extent of its memory.

use vstd::prelude::*;
use crate::fault::BridgeError;

verus! {

/// True when `length` bytes starting at `offset` lie inside a memory of `extent`
/// bytes, and the end of the range can still be written as a `u32`.
pub open spec fn within_extent(offset: u32, length: u32, extent: nat) -> bool {
    &&& offset + length <= u32::MAX
    &&& offset + length <= extent
}

/// A half-open range of guest memory that has been validated against an extent.
#[derive(Clone, Copy, Debug, PartialEq, Eq)]
pub struct GuestRange {
    start: usize,
    end: usize,
}

impl GuestRange {
    #[verifier::type_invariant]
    spec fn ordered(self) -> bool {
        self.start <= self.end <= u32::MAX
    }

    /// Index of the first byte of the range.
    pub closed spec fn lower(self) -> int {
        self.start as int
    }

    /// Index one past the last byte of the range.
    pub closed spec fn upper(self) -> int {
        self.end as int
    }

    /// Validates `offset` and `length` against a memory of `extent` bytes.
    ///
    /// The end of the range is computed without wrapping. A pair whose end does
    /// not fit in a `u32`, or lies beyond `extent`, is refused.
    pub fn locate(offset: u32, length: u32, extent: usize) -> (r: Result<GuestRange, BridgeError>)
        ensures
            r is Ok <==> within_extent(offset, length, extent as nat),
            r matches Ok(range) ==> range.lower() == offset && range.upper() == offset + length,
            r matches Err(e) ==> e == BridgeError::OutOfBounds,
    {
        match offset.checked_add(length) {
            None => Err(BridgeError::OutOfBounds),
            Some(end) => {
                if end as usize <= extent {
                    Ok(GuestRange { start: offset as usize, end: end as usize })
                } else {
                    Err(BridgeError::OutOfBounds)
                }
            },
        }
    }

    /// Index of the first byte of the range.
    pub fn start(&self) -> (r: usize)
        ensures
            r == self.lower(),
            r <= self.upper(),
    {
        proof {
            use_type_invariant(self);
        }
        self.start
    }

    /// Index one past the last byte of the range.
    pub fn end(&self) -> (r: usize)
        ensures
            r == self.upper(),
            self.lower() <= r <= u32::MAX,
    {
        proof {
            use_type_invariant(self);
        }
        self.end
    }

    /// Number of bytes in the range.
    pub fn len(&self) -> (r: usize)
        ensures
            r == self.upper() - self.lower(),
    {
        proof {
            use_type_invariant(self);
        }
        self.end - self.start
    }

    /// Copies the bytes of the range out of `memory`.
    ///
    /// The range is held against the length of `memory` once more before any byte
    /// is read, so a range that was validated against a larger extent is refused
    /// here rather than followed.
    pub fn copy_out(&self, memory: &[u8]) -> (r: Result<Vec<u8>, BridgeError>)
        ensures
            r is Ok <==> self.upper() <= memory@.len(),
            r matches Ok(bytes) ==> bytes@ == memory@.subrange(self.lower(), self.upper()),
            r matches Err(e) ==> e == BridgeError::OutOfBounds,
    {
        proof {
            use_type_invariant(self);
        }
        if self.end > memory.len() {
            return Err(BridgeError::OutOfBounds);
        }
        let mut bytes: Vec<u8> = Vec::with_capacity(self.end - self.start);
        let mut at: usize = self.start;
        while at < self.end
            invariant
                self.start <= at <= self.end <= memory@.len(),
                bytes@ == memory@.subrange(self.start as int, at as int),
            decreases self.end - at,
        {
            bytes.push(memory[at]);
            at += 1;
        }
        Ok(bytes)
    }
}

} // verus!
