use vstd::prelude::*;

verus! {

/// Everything that can go wrong in one request/reply round trip with the controller.
#[derive(Clone, Copy, Debug, PartialEq, Eq, Structural)]
pub enum DobotError {
    /// The frame header is not `0xAA 0xAA`, or its length byte is below 2.
    Framing,
    /// The buffer is shorter than the frame's length byte demands.
    TruncatedFrame,
    /// The trailing checksum byte does not match the payload.
    Checksum,
    /// The reply echoes another command id than the one requested.
    IdMismatch,
    /// The transport failed to write, read, or timed out.
    Transport,
    /// The reply payload does not have the shape the operation expects.
    Decode,
}

} // verus!
