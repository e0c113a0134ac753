//! The host side of a host/guest boundary.
//!
//! A guest runs confined to a flat, byte-addressable memory of its own. When it
//! calls a host function it can hand over nothing but integers, so a message is
//! passed as an offset and a length into that memory. The host must treat both as
//! untrusted: it validates the pair against the current extent of the memory,
//! copies the bytes out, decodes them, and answers with a single integer.
//!
//! Everything here works on plain values. Talking to the engine that runs the
//! guest, and writing to the host's streams, is left to the caller.

pub mod bridge;
pub mod fault;
pub mod range;
pub mod status;
pub mod text;
