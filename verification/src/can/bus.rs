//! A boundary trait for a bus that transports raw frames.

use vstd::prelude::*;

use super::frame::Frame;

verus! {

/// Errors surfaced by a raw frame bus.
#[derive(Copy, Clone, Debug, PartialEq, Eq, Structural)]
pub enum BusError {
    /// The bus could not be opened.
    CouldNotOpenBus,
    /// A frame could not be sent.
    CouldNotSendMessage,
}

/// A bus that opens a connection and sends raw frames.
pub trait Bus {
    /// Opens the bus.
    fn open(&self) -> Result<(), BusError>;

    /// Queues one frame for sending.
    fn send(&mut self, frame: Frame) -> Result<(), BusError>;
}

} // verus!
