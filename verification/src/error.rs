//! Error values returned by the decoders.

use vstd::prelude::*;

verus! {

/// A reason why a reply buffer was rejected. Every decoding failure is
/// reported to the caller as one of these values; the codec never panics
/// and never retries.
#[derive(Debug, Clone, Copy, PartialEq, Eq, Structural)]
pub enum Error {
    /// The checksum byte of a frame does not match the sum of the bytes
    /// before it.
    CheckSumError,
    /// The reply buffer is shorter than the reply of the command requires.
    ReplySizeError,
    /// A frame of a multi-frame reply carries a sequence number other than
    /// its position.
    FrameNoError,
}

} // verus!
