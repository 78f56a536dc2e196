//! A boundary trait for a device that exchanges raw frames.

use vstd::prelude::*;

use super::frame::Frame;

verus! {

/// A device boundary that opens a connection and exchanges raw frames.
pub trait Device {
    /// Opens the device.
    fn open(&self);

    /// Hands one frame to the device for sending.
    fn send(&self, frame: Frame);

    /// Hands one received frame to the device for processing.
    fn receive(&self, frame: Frame);
}

} // verus!
