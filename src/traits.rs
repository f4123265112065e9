use vstd::prelude::*;

use crate::error::DobotError;
use crate::protocol::PayloadStruct;

verus! {

/// A transport to the controller: writes one command frame and reads back one reply frame.
///
/// Implementations serialize `packet`, write all of it, read exactly one reply (the three
/// header bytes first, to learn its length, then the rest) and deserialize it. Any failure
/// to write or read, a timeout included, is `DobotError::Transport`.
pub trait Device {
    fn send(&mut self, packet: PayloadStruct) -> Result<PayloadStruct, DobotError>;
}

} // verus!
