//! The bus: segments outgoing messages and drives their frames to the
//! hardware transmit capability, requeueing evicted frames and retrying
//! transient "would block" conditions within a bound.

use vstd::prelude::*;

use crate::frame::CanFrame;
use crate::hal::can::{Receiver, TransferError, Transmitter};
use crate::id::IdError;
use crate::message::Message;
use crate::transport::segment;

verus! {

/// The default bound on transmit attempts for one frame — retries after
/// "would block" and resubmissions of evicted frames included — before the
/// send fails with a terminal error. A bounded loop in place of unbounded
/// spinning: a pathological controller surfaces an error instead of hanging
/// the caller. `Bus::with_transmit_attempts` and
/// `Device::with_transmit_attempts` choose another bound.
pub const TRANSMIT_ATTEMPTS: usize = 64;

/// Errors surfaced by the bus.
#[derive(Copy, Clone, Debug, PartialEq, Eq, Structural)]
pub enum BusError {
    /// The hardware could not be opened.
    CouldNotOpenBus,
    /// The hardware boundary reported a non-recoverable transmit error, or
    /// stayed blocked past the attempt bound.
    CouldNotSendMessage,
    /// An identifier could not be built or decoded.
    InvalidId(IdError),
}

impl From<IdError> for BusError {
    fn from(error: IdError) -> (r: Self) {
        BusError::InvalidId(error)
    }
}

impl vstd::std_specs::convert::FromSpecImpl<IdError> for BusError {
    open spec fn obeys_from_spec() -> bool {
        true
    }

    open spec fn from_spec(error: IdError) -> Self {
        BusError::InvalidId(error)
    }
}

/// What the transmit engine does next, given one outcome of the hardware
/// transmit capability.
pub enum TransmitStep<F, E> {
    /// The frame was accepted and nothing was displaced: done.
    Done,
    /// The frame was accepted, but the interface evicted a queued
    /// lower-priority frame to make room: resubmit exactly that frame
    /// through the same path, so it is not silently lost.
    Resubmit(F),
    /// No room right now: retry the same frame.
    Retry,
    /// A hard controller error: terminal for this frame.
    Fail(E),
}

/// The transmit engine's decision rule: the step that follows from each
/// outcome of the hardware transmit capability. Acceptance finishes; an
/// evicted frame is carried over for resubmission unchanged; "would block"
/// retries; any other error is terminal.
pub fn transmit_step<F, E>(outcome: Result<Option<F>, TransferError<E>>) -> (s: TransmitStep<F, E>)
    ensures
        s == match outcome {
            Ok(None) => TransmitStep::<F, E>::Done,
            Ok(Some(f)) => TransmitStep::<F, E>::Resubmit(f),
            Err(TransferError::WouldBlock) => TransmitStep::<F, E>::Retry,
            Err(TransferError::Other(e)) => TransmitStep::<F, E>::Fail(e),
        },
{
    match outcome {
        Ok(None) => TransmitStep::Done,
        Ok(Some(f)) => TransmitStep::Resubmit(f),
        Err(TransferError::WouldBlock) => TransmitStep::Retry,
        Err(TransferError::Other(e)) => TransmitStep::Fail(e),
    }
}

/// A bus handle: one CAN interface (receive and transmit capable) plus this
/// station's source address and its transmit attempt bound.
pub struct Bus<T> {
    /// The CAN interface.
    pub can: T,
    /// This station's source address.
    pub address: u8,
    /// The bound on transmit attempts for one frame.
    pub transmit_attempts: usize,
}

impl<T, E> Bus<T> where
    T: Receiver<Frame = CanFrame, Error = E> + Transmitter<Frame = CanFrame, Error = E>,
 {
    /// A bus over the given interface, at source address 0, with the
    /// default transmit attempt bound.
    pub fn new(can: T) -> (r: Bus<T>)
        ensures
            r.can == can,
            r.address == 0,
            r.transmit_attempts == TRANSMIT_ATTEMPTS,
    {
        Bus { can, address: 0, transmit_attempts: TRANSMIT_ATTEMPTS }
    }

    /// A bus over the given interface, at source address 0, with the given
    /// bound on transmit attempts per frame.
    pub fn with_transmit_attempts(can: T, transmit_attempts: usize) -> (r: Bus<T>)
        ensures
            r.can == can,
            r.address == 0,
            r.transmit_attempts == transmit_attempts,
    {
        Bus { can, address: 0, transmit_attempts }
    }

    /// Sends one message: a payload of at most 8 bytes as a single frame,
    /// a longer one as a BAM announcement followed by numbered data frames
    /// (exactly `transport::segment_frames` of the message), handing each
    /// frame to the interface in order. The transport identifiers never
    /// fail to build, so the only error is `CouldNotSendMessage`: the
    /// interface rejected a frame for good or stayed blocked past the
    /// attempt bound. Frames already handed over before such an error are
    /// not recalled; a connectionless broadcast transfer cannot be.
    pub fn send(&mut self, message: &Message) -> (r: Result<(), BusError>)
        requires
            message.wf(),
        ensures
            r matches Err(e) ==> e == BusError::CouldNotSendMessage,
            final (self).address == old(self).address,
            final (self).transmit_attempts == old(self).transmit_attempts,
    {
        let frames = segment(message, self.address);
        let mut i: usize = 0;
        while i < frames.len()
            invariant
                self.address == old(self).address,
                self.transmit_attempts == old(self).transmit_attempts,
            decreases frames@.len() - i,
        {
            match self.transmit(&frames[i]) {
                Ok(_) => {},
                Err(e) => {
                    return Err(e);
                },
            }
            i += 1;
        }
        Ok(())
    }

    /// Drives one frame into the interface, following `transmit_step` for
    /// each outcome: a queued lower-priority frame the interface evicted to
    /// make room is resubmitted through the same path so it is not lost,
    /// and a "would block" condition retries the same frame, all within the
    /// attempt bound.
    fn transmit(&mut self, frame: &CanFrame) -> (r: Result<(), BusError>)
        ensures
            r matches Err(e) ==> e == BusError::CouldNotSendMessage,
            final (self).address == old(self).address,
            final (self).transmit_attempts == old(self).transmit_attempts,
    {
        let mut current: CanFrame = *frame;
        let mut attempts: usize = 0;
        while attempts < self.transmit_attempts
            invariant
                self.address == old(self).address,
                self.transmit_attempts == old(self).transmit_attempts,
            decreases self.transmit_attempts - attempts,
        {
            match transmit_step(self.can.transmit(&current)) {
                TransmitStep::Done => {
                    return Ok(());
                },
                TransmitStep::Resubmit(evicted) => {
                    current = evicted;
                },
                TransmitStep::Retry => {},
                TransmitStep::Fail(_) => {
                    return Err(BusError::CouldNotSendMessage);
                },
            }
            attempts += 1;
        }
        Err(BusError::CouldNotSendMessage)
    }
}

} // verus!
