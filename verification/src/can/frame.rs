//! A raw CAN frame as a plain value: identifier, length and buffer.

use vstd::prelude::*;

verus! {

/// A raw CAN frame: a 29-bit identifier value, a data length code (0
/// through 8) and an 8-byte data buffer.
pub struct Frame {
    /// The raw identifier value.
    pub id: u32,
    /// The data length code.
    pub length: u8,
    /// The data buffer.
    pub data: [u8; 8],
}

impl Frame {
    /// Builds a frame from its parts.
    pub fn new(id: u32, length: u8, data: [u8; 8]) -> (r: Frame)
        requires
            length <= 8,
        ensures
            r == (Frame { id, length, data }),
    {
        Frame { id, length, data }
    }

    /// The raw identifier value.
    pub fn id(&self) -> (r: u32)
        ensures
            r == self.id,
    {
        self.id
    }

    /// The data length code.
    pub fn length(&self) -> (r: u8)
        ensures
            r == self.length,
    {
        self.length
    }

    /// The data buffer.
    pub fn data(&self) -> (r: [u8; 8])
        ensures
            r == self.data,
    {
        self.data
    }
}

} // verus!
