//! The device: a pairing of receive and transmit capabilities with a
//! handler registry, sending messages through the generic frame capability
//! of its transmitter.

use vstd::prelude::*;

use crate::bus::{transmit_step, TransmitStep, TRANSMIT_ATTEMPTS};
use crate::hal::can::{Frame, Receiver, Transmitter};
use crate::handler::Handler;
use crate::id::IdError;
use crate::message::Message;
use crate::transport::segment;

verus! {

/// Errors surfaced by a device.
#[derive(Copy, Clone, Debug, PartialEq, Eq, Structural)]
pub enum DeviceError {
    /// The hardware could not be opened.
    CouldNotOpenBus,
    /// A frame could not be built for the transmit capability, or the
    /// capability reported a non-recoverable transmit error or stayed
    /// blocked past the attempt bound.
    CouldNotSendMessage,
    /// An identifier could not be built or decoded.
    InvalidId(IdError),
}

impl From<IdError> for DeviceError {
    fn from(error: IdError) -> (r: Self) {
        DeviceError::InvalidId(error)
    }
}

impl vstd::std_specs::convert::FromSpecImpl<IdError> for DeviceError {
    open spec fn obeys_from_spec() -> bool {
        true
    }

    open spec fn from_spec(error: IdError) -> Self {
        DeviceError::InvalidId(error)
    }
}

/// A device: a receive capability, a transmit capability, the registered
/// inbound-message handlers, this station's source address and its transmit
/// attempt bound.
pub struct Device<Rx, Tx, H> {
    /// The receive capability; consumed by an inbound path, not by `send`.
    pub rx: Rx,
    /// The transmit capability.
    pub tx: Tx,
    /// The registered handlers, dispatched to by an inbound path.
    pub handlers: Vec<H>,
    /// This station's source address.
    pub address: u8,
    /// The bound on transmit attempts for one frame.
    pub transmit_attempts: usize,
}

impl<Rx, Tx, H> Device<Rx, Tx, H> where Rx: Receiver, Tx: Transmitter, H: Handler {
    /// A device over the given capabilities, at source address 0, with no
    /// handlers registered and the default transmit attempt bound.
    pub fn new(rx: Rx, tx: Tx) -> (r: Device<Rx, Tx, H>)
        ensures
            r.rx == rx,
            r.tx == tx,
            r.handlers@ == Seq::<H>::empty(),
            r.address == 0,
            r.transmit_attempts == TRANSMIT_ATTEMPTS,
    {
        Device { rx, tx, handlers: Vec::new(), address: 0, transmit_attempts: TRANSMIT_ATTEMPTS }
    }

    /// A device over the given capabilities, at source address 0, with no
    /// handlers registered and the given bound on transmit attempts per
    /// frame.
    pub fn with_transmit_attempts(rx: Rx, tx: Tx, transmit_attempts: usize) -> (r: Device<
        Rx,
        Tx,
        H,
    >)
        ensures
            r.rx == rx,
            r.tx == tx,
            r.handlers@ == Seq::<H>::empty(),
            r.address == 0,
            r.transmit_attempts == transmit_attempts,
    {
        Device { rx, tx, handlers: Vec::new(), address: 0, transmit_attempts }
    }

    /// Sends one message, handing each frame of its segmentation (exactly
    /// `transport::segment_frames` of the message) to the transmit
    /// capability in order, with the same outcome handling as the bus:
    /// evicted frames are resubmitted, "would block" is retried within the
    /// attempt bound. Fails with `CouldNotSendMessage` when the
    /// capability's frame type cannot represent a frame of the
    /// segmentation, when the capability rejects a frame for good, or when
    /// it stays blocked past the bound; frames already handed over are not
    /// recalled.
    #[verifier::loop_isolation(false)]
    pub fn send(&mut self, message: &Message) -> (r: Result<(), DeviceError>)
        requires
            message.wf(),
        ensures
            r matches Err(e) ==> e == DeviceError::CouldNotSendMessage,
            final (self).address == old(self).address,
            final (self).handlers == old(self).handlers,
            final (self).transmit_attempts == old(self).transmit_attempts,
    {
        let frames = segment(message, self.address);
        let mut i: usize = 0;
        while i < frames.len()
            invariant
                self.address == old(self).address,
                self.handlers == old(self).handlers,
                self.transmit_attempts == old(self).transmit_attempts,
            decreases frames@.len() - i,
        {
            let f = frames[i];
            let raw = f.id().value();
            let hal_frame = match Tx::Frame::new_extended(raw, f.data()) {
                Ok(fr) => fr,
                Err(_) => {
                    return Err(DeviceError::CouldNotSendMessage);
                },
            };
            match self.transmit(&hal_frame) {
                Ok(_) => {},
                Err(e) => {
                    return Err(e);
                },
            }
            i += 1;
        }
        Ok(())
    }

    /// Drives one frame into the transmit capability, following
    /// `transmit_step` for each outcome: an evicted lower-priority frame is
    /// resubmitted through the same path so it is not lost, and a "would
    /// block" condition retries the same frame, all within the attempt
    /// bound.
    fn transmit(&mut self, frame: &Tx::Frame) -> (r: Result<(), DeviceError>)
        ensures
            r matches Err(e) ==> e == DeviceError::CouldNotSendMessage,
            final (self).address == old(self).address,
            final (self).handlers == old(self).handlers,
            final (self).transmit_attempts == old(self).transmit_attempts,
    {
        // A frame the capability evicted, owned here until resubmitted;
        // while there is none, the caller's frame is the one in flight.
        let mut owned: Option<Tx::Frame> = None;
        let mut attempts: usize = 0;
        while attempts < self.transmit_attempts
            invariant
                self.address == old(self).address,
                self.handlers == old(self).handlers,
                self.transmit_attempts == old(self).transmit_attempts,
            decreases self.transmit_attempts - attempts,
        {
            let outcome = match &owned {
                Some(evicted) => self.tx.transmit(evicted),
                None => self.tx.transmit(frame),
            };
            match transmit_step(outcome) {
                TransmitStep::Done => {
                    return Ok(());
                },
                TransmitStep::Resubmit(evicted) => {
                    owned = Some(evicted);
                },
                TransmitStep::Retry => {},
                TransmitStep::Fail(_) => {
                    return Err(DeviceError::CouldNotSendMessage);
                },
            }
            attempts += 1;
        }
        Err(DeviceError::CouldNotSendMessage)
    }

    /// Registers a handler for inbound messages; `send` never invokes it.
    pub fn register(&mut self, handler: H)
        ensures
            final (self).handlers@ == old(self).handlers@.push(handler),
            final (self).rx == old(self).rx,
            final (self).tx == old(self).tx,
            final (self).address == old(self).address,
            final (self).transmit_attempts == old(self).transmit_attempts,
    {
        self.handlers.push(handler);
    }
}

} // verus!
